//! The application: the request list beside one response panel per request, the
//! message popup, the focus, and the route that a key takes through them.

use vstd::prelude::*;
use vstd::string::*;
use crate::dispatcher::{Dispatcher, Stage};
use crate::key::{Event, HandleSuccess, Key, KeyCode};
use crate::menu::Menu;
use crate::message::{DialogFace, Message, MessageDialog, MessageModel, MessageQueue};
use crate::parser::{HttpFile, HttpRequest, RequestModel};
use crate::popup::Popup;
use crate::response::Response;
use crate::response_panel::{
    saved_text, PanelFace, PanelModel, PanelStep, ResponsePanel, SaveOption, SaveRequest, UiError,
};
use crate::text::views;

verus! {

/// Which half of the screen receives the keys.
#[derive(Clone, Copy, Debug, PartialEq, Eq, Structural)]
pub enum FocusState {
    RequestsList,
    ResponseBuffer,
}

impl Default for FocusState {
    fn default() -> (focus: FocusState)
        ensures
            focus == FocusState::RequestsList,
    {
        FocusState::RequestsList
    }
}

/// The application.
pub struct App {
    request_menu: Menu<HttpRequest>,
    responses: Vec<ResponsePanel>,
    should_exit: bool,
    file_path: String,
    focus: FocusState,
    message_popup: Option<Popup<MessageDialog>>,
    dispatcher: Dispatcher,
}

/// The application as plain values, with its panels.
pub struct AppModel {
    pub requests: Seq<RequestModel>,
    pub selected: int,
    pub focus: FocusState,
    pub should_exit: bool,
    pub popup: Option<MessageModel>,
    pub panels: Seq<ResponsePanel>,
    pub stage: Stage,
    pub file_path: Seq<char>,
}

impl AppModel {
    /// What a key does that neither a popup nor the focused half has taken. `q`, `Q`
    /// and control with `c` end the program. Escape leaves the response for the list.
    /// Enter goes from the list to the response of the selected request; in the
    /// response it sends the selected request, which waits its turn while another is
    /// under way. Every other key does nothing.
    pub open spec fn global_step(self, key: Key) -> AppModel {
        if key.is_quit() {
            AppModel { should_exit: true, ..self }
        } else if key.code == KeyCode::Esc && self.focus == FocusState::ResponseBuffer {
            AppModel { focus: FocusState::RequestsList, ..self }
        } else if key.code == KeyCode::Enter {
            if self.focus == FocusState::RequestsList {
                AppModel { focus: FocusState::ResponseBuffer, ..self }
            } else {
                AppModel {
                    stage: self.stage.submit(
                        self.requests[self.selected],
                        self.selected as usize,
                    ),
                    ..self
                }
            }
        } else {
            self
        }
    }
}

/// A file that a panel asks to have written.
#[derive(Debug)]
pub struct SaveJob {
    /// The index of the panel that asks.
    pub index: usize,
    /// Where to write, and what.
    pub file: SaveRequest,
}

/// What the application shows.
pub struct AppFace {
    /// The title of the list.
    pub title: String,
    /// The half whose border is set off.
    pub focus: FocusState,
    /// The lines of every request, in order.
    pub requests: Vec<Vec<String>>,
    /// The index of the selected request.
    pub selected: usize,
    /// The panel of the selected request.
    pub panel: PanelFace,
    /// The message popup, where one is open.
    pub message: Option<DialogFace>,
}

/// The title of the list: the path of the request file between `>> ` and ` <<`.
pub open spec fn spec_title(path: Seq<char>) -> Seq<char> {
    seq!['>', '>', ' '] + path + seq![' ', '<', '<']
}

impl View for App {
    type V = AppModel;

    closed spec fn view(&self) -> AppModel {
        AppModel {
            requests: self.request_menu.items().map_values(|r: HttpRequest| r@),
            selected: self.request_menu.spec_idx(),
            focus: self.focus,
            should_exit: self.should_exit,
            popup: match self.message_popup {
                Some(popup) => Some(popup.component@),
                None => None,
            },
            panels: self.responses@,
            stage: self.dispatcher@,
            file_path: self.file_path@,
        }
    }
}

impl App {
    /// There is one panel for each request; the selection is the index of a request,
    /// or 0 where there is none; every panel is well formed; every request that waits
    /// or is under way belongs to one of the panels.
    pub closed spec fn wf(&self) -> bool {
        &&& self.request_menu.wf()
        &&& self.responses@.len() == self.request_menu.items().len()
        &&& forall|i: int| 0 <= i < self.responses@.len() ==> (#[trigger] self.responses@[i]).wf()
        &&& self.dispatcher@.indices_below(self.responses@.len() as int)
    }

    /// What follows from `wf` for the model.
    pub proof fn wf_facts(&self)
        requires
            self.wf(),
        ensures
            self@.requests.len() <= usize::MAX,
            self@.panels.len() == self@.requests.len(),
            0 <= self@.selected,
            self@.selected < self@.requests.len() || (self@.requests.len() == 0
                && self@.selected == 0),
            forall|i: int| 0 <= i < self@.panels.len() ==> (#[trigger] self@.panels[i]).wf(),
            self@.stage.indices_below(self@.panels.len() as int),
    {
        assert(self.responses@.len() == self.responses.len());
    }

    /// An application over the requests of `http_file`, however many: the first
    /// request is selected, the list has the focus, every panel is empty, no message
    /// is shown, and no request waits or is under way.
    pub fn new(file_path: String, http_file: HttpFile) -> (app: App)
        ensures
            app.wf(),
            app@.requests == http_file@,
            app@.selected == 0,
            app@.focus == FocusState::RequestsList,
            !app@.should_exit,
            app@.popup is None,
            app@.stage == Stage::idle(),
            app@.file_path == file_path@,
            app@.panels.len() == http_file@.len(),
            forall|i: int|
                0 <= i < app@.panels.len() ==> (#[trigger] app@.panels[i]).content() is None
                    && app@.panels[i]@ == (PanelModel {
                    scroll: 0,
                    option: SaveOption::All,
                    menu: None,
                    path: None,
                }),
    {
        let count = http_file.requests.len();
        let mut responses: Vec<ResponsePanel> = Vec::new();
        let mut i: usize = 0;
        while i < count
            invariant
                i <= count,
                responses@.len() == i,
                forall|j: int|
                    0 <= j < i ==> (#[trigger] responses@[j]).wf()
                        && responses@[j].content() is None
                        && responses@[j]@ == (PanelModel {
                        scroll: 0,
                        option: SaveOption::All,
                        menu: None,
                        path: None,
                    }),
            decreases count - i,
        {
            responses.push(ResponsePanel::new());
            i = i + 1;
        }
        App {
            file_path,
            request_menu: Menu::new(http_file.requests),
            responses,
            should_exit: false,
            focus: FocusState::RequestsList,
            message_popup: None,
            dispatcher: Dispatcher::new(),
        }
    }

    /// Whether a quit key has been pressed.
    pub fn should_exit(&self) -> (exit: bool)
        ensures
            exit == self@.should_exit,
    {
        self.should_exit
    }

    /// Which half of the screen has the focus.
    pub fn focus(&self) -> (focus: FocusState)
        ensures
            focus == self@.focus,
    {
        self.focus
    }

    /// The index of the selected request.
    pub fn selected_index(&self) -> (i: usize)
        ensures
            i == self@.selected,
    {
        self.request_menu.idx()
    }

    /// The requests and the selection among them.
    pub fn requests(&self) -> (menu: &Menu<HttpRequest>)
        ensures
            menu.spec_idx() == self@.selected,
            menu.items().map_values(|r: HttpRequest| r@) == self@.requests,
    {
        &self.request_menu
    }

    /// The number of panels, which is the number of requests.
    pub fn len(&self) -> (n: usize)
        ensures
            n == self@.panels.len(),
    {
        self.responses.len()
    }

    /// The panel of the request with index `i`.
    pub fn panel(&self, i: usize) -> (panel: &ResponsePanel)
        requires
            i < self@.panels.len(),
        ensures
            *panel == self@.panels[i as int],
    {
        &self.responses[i]
    }

    /// The message on display, if any.
    pub fn message(&self) -> (dialog: Option<&MessageDialog>)
        ensures
            dialog is Some == self@.popup is Some,
            dialog is Some ==> dialog->Some_0@ == self@.popup->Some_0,
    {
        match &self.message_popup {
            Some(popup) => Some(&popup.component),
            None => None,
        }
    }

    /// The number of requests that wait for the worker.
    pub fn pending(&self) -> (n: usize)
        ensures
            n == self@.stage.waiting.len(),
    {
        self.dispatcher.pending()
    }

    /// The index of the panel whose request is under way, if one is.
    pub fn in_flight(&self) -> (index: Option<usize>)
        ensures
            index == self@.stage.in_flight(),
    {
        self.dispatcher.in_flight()
    }

    /// The title of the list.
    pub fn title(&self) -> (title: String)
        ensures
            title@ == spec_title(self@.file_path),
    {
        proof {
            reveal_strlit(">> ");
            reveal_strlit(" <<");
        }
        let mut title = String::from_str(">> ");
        title.append(self.file_path.as_str());
        title.append(" <<");
        assert(title@ =~= spec_title(self@.file_path));
        title
    }

    /// True when `face` is what the application shows with `area_height` rows for the
    /// response: the title, the focus, every request by its lines, the selection, the
    /// panel of the selected request, and the message popup where one is open.
    pub open spec fn shown_as(&self, area_height: u16, face: AppFace) -> bool {
        &&& face.title@ == spec_title(self@.file_path)
        &&& face.focus == self@.focus
        &&& face.selected == self@.selected
        &&& face.requests@.len() == self@.requests.len()
        &&& forall|i: int|
            0 <= i < face.requests@.len() ==> views((#[trigger] face.requests@[i])@)
                == self@.requests[i].menu_lines()
        &&& 0 <= self@.selected < self@.panels.len()
        &&& self@.panels[self@.selected].shown_as(area_height, face.panel)
        &&& face.message is Some == self@.popup is Some
        &&& face.message is Some ==> face.message->Some_0.shows(self@.popup->Some_0)
    }

    /// What the application shows, for the painter: nothing here touches the screen.
    /// There is a request to show: the panel on display is that of the selection.
    pub fn draw(&self, area_height: u16) -> (face: AppFace)
        requires
            self.wf(),
            self@.requests.len() > 0,
        ensures
            self.shown_as(area_height, face),
    {
        let message = match &self.message_popup {
            Some(popup) => Some(popup.component.render()),
            None => None,
        };
        let selected = self.request_menu.idx();
        AppFace {
            title: self.title(),
            focus: self.focus,
            requests: self.request_menu.render(),
            selected,
            panel: self.responses[selected].render(area_height),
            message,
        }
    }

    /// True when `mid` and `offered` are what offering `key` to the popup and the
    /// focused half makes of `pre`. An open message popup takes every key and closes.
    /// Otherwise the list, where it has the focus, moves its selection on `j`, `k` and
    /// the arrows and ignores the rest; where the response has the focus, the panel of
    /// the selected request gets the key and nothing else changes.
    pub open spec fn offered_is(
        pre: AppModel,
        key: Key,
        mid: AppModel,
        offered: Result<PanelStep, UiError>,
    ) -> bool {
        if pre.popup is Some {
            &&& mid == (AppModel { popup: None, ..pre })
            &&& offered is Ok
            &&& offered->Ok_0.handled == HandleSuccess::Consumed
            &&& offered->Ok_0.save is None
        } else if pre.focus == FocusState::RequestsList {
            &&& mid == (AppModel {
                selected: Menu::<HttpRequest>::idx_after(
                    pre.selected,
                    pre.requests.len() as int,
                    key,
                ),
                ..pre
            })
            &&& offered is Ok
            &&& offered->Ok_0.handled == (if key.is_down() || key.is_up() {
                HandleSuccess::Consumed
            } else {
                HandleSuccess::Ignored
            })
            &&& offered->Ok_0.save is None
        } else {
            &&& mid == (AppModel {
                panels: pre.panels.update(pre.selected, mid.panels[pre.selected]),
                ..pre
            })
            &&& mid.panels[pre.selected].content() == pre.panels[pre.selected].content()
            &&& ResponsePanel::follows(
                pre.panels[pre.selected],
                key,
                mid.panels[pre.selected],
                offered,
            )
        }
    }

    /// True when `post`, the queue and `job` are what settling `offered` makes of
    /// `mid`. A failure joins the queue as an error message. A consumed key ends
    /// there, and the file that the panel asks for is handed out with the index of
    /// that panel, which is the selection. An ignored key acts as
    /// [`AppModel::global_step`] says.
    pub open spec fn settled_is(
        mid: AppModel,
        key: Key,
        offered: Result<PanelStep, UiError>,
        queue_before: Seq<MessageModel>,
        post: AppModel,
        queue_after: Seq<MessageModel>,
        job: Option<SaveJob>,
    ) -> bool {
        match offered {
            Err(e) => post == mid && job is None && queue_after == queue_before.push(
                MessageModel::Error(e.spec_message()),
            ),
            Ok(step) => if step.handled == HandleSuccess::Consumed {
                post == mid && queue_after == queue_before && job == (match step.save {
                    Some(file) => Some(SaveJob { index: mid.selected as usize, file }),
                    None => None,
                })
            } else {
                post == mid.global_step(key) && job is None && queue_after == queue_before
            },
        }
    }

    /// True when `pre` goes to `post` by way of `mid` and `offered`.
    pub open spec fn routed(
        pre: AppModel,
        key: Key,
        mid: AppModel,
        offered: Result<PanelStep, UiError>,
        queue_before: Seq<MessageModel>,
        post: AppModel,
        queue_after: Seq<MessageModel>,
        job: Option<SaveJob>,
    ) -> bool {
        Self::offered_is(pre, key, mid, offered) && Self::settled_is(
            mid,
            key,
            offered,
            queue_before,
            post,
            queue_after,
            job,
        )
    }

    /// Offers `key` to an open message popup, else to the half that has the focus.
    /// There is a request, so that there is a selection to move and a panel to ask.
    pub fn offer(&mut self, key: Key) -> (offered: Result<PanelStep, UiError>)
        requires
            old(self).wf(),
            old(self)@.requests.len() > 0,
        ensures
            final(self).wf(),
            Self::offered_is(old(self)@, key, final(self)@, offered),
    {
        if self.message_popup.is_some() {
            self.message_popup = None;
            return Ok(PanelStep { handled: HandleSuccess::Consumed, save: None });
        }
        match self.focus {
            FocusState::RequestsList => {
                let handled = self.request_menu.on_event(key);
                Ok(PanelStep { handled, save: None })
            },
            FocusState::ResponseBuffer => {
                let i = self.request_menu.idx();
                let mut panel = self.responses.remove(i);
                let offered = panel.on_event(key);
                self.responses.insert(i, panel);
                proof {
                    assert(self.responses@ =~= old(self).responses@.update(i as int, panel));
                }
                offered
            },
        }
    }

    /// Acts on what the popup or the focused half made of `key`. There is a request,
    /// so that there is one to send.
    pub fn settle(
        &mut self,
        key: Key,
        offered: Result<PanelStep, UiError>,
        queue: &mut MessageQueue,
    ) -> (job: Option<SaveJob>)
        requires
            old(self).wf(),
            old(self)@.requests.len() > 0,
        ensures
            final(self).wf(),
            Self::settled_is(
                old(self)@,
                key,
                offered,
                old(queue)@,
                final(self)@,
                final(queue)@,
                job,
            ),
    {
        match offered {
            Err(e) => {
                MessageDialog::push_message(queue, Message::Error(String::from_str(e.message())));
                None
            },
            Ok(step) => {
                match step.handled {
                    HandleSuccess::Consumed => {
                        return match step.save {
                            Some(file) => Some(SaveJob { index: self.request_menu.idx(), file }),
                            None => None,
                        };
                    },
                    HandleSuccess::Ignored => {},
                }
                if key.is_quit() {
                    self.should_exit = true;
                } else {
                    match (key.code, self.focus) {
                        (KeyCode::Esc, FocusState::ResponseBuffer) => {
                            self.focus = FocusState::RequestsList;
                        },
                        (KeyCode::Enter, FocusState::RequestsList) => {
                            self.focus = FocusState::ResponseBuffer;
                        },
                        (KeyCode::Enter, FocusState::ResponseBuffer) => {
                            let request = self.request_menu.selected().duplicate();
                            let index = self.request_menu.idx();
                            self.dispatcher.submit(request, index);
                        },
                        _ => {},
                    }
                }
                None
            },
        }
    }

    /// Routes one key: first to an open popup, then to the half that has the focus,
    /// then to the keys that act everywhere. The result is the file that a confirmed
    /// save asks to have written, with the index of the panel that asks. There is a
    /// request, as for [`App::offer`].
    pub fn on_key_event(&mut self, key: Key, queue: &mut MessageQueue) -> (job: Option<SaveJob>)
        requires
            old(self).wf(),
            old(self)@.requests.len() > 0,
        ensures
            final(self).wf(),
            exists|mid: AppModel, offered: Result<PanelStep, UiError>| #[trigger]
                Self::routed(
                    old(self)@,
                    key,
                    mid,
                    offered,
                    old(queue)@,
                    final(self)@,
                    final(queue)@,
                    job,
                ),
    {
        let offered = self.offer(key);
        let ghost mid = self@;
        let job = self.settle(key, offered, queue);
        assert(Self::routed(old(self)@, key, mid, offered, old(queue)@, self@, queue@, job));
        job
    }

    /// Takes one event of the terminal: a key goes the way of
    /// [`App::on_key_event`], anything else changes nothing.
    pub fn on_event(&mut self, e: Event, queue: &mut MessageQueue) -> (job: Option<SaveJob>)
        requires
            old(self).wf(),
            old(self)@.requests.len() > 0,
        ensures
            final(self).wf(),
            e is Other ==> final(self)@ == old(self)@ && final(queue)@ == old(queue)@
                && job is None,
            e is Key ==> exists|mid: AppModel, offered: Result<PanelStep, UiError>| #[trigger]
                Self::routed(
                    old(self)@,
                    e->Key_0,
                    mid,
                    offered,
                    old(queue)@,
                    final(self)@,
                    final(queue)@,
                    job,
                ),
    {
        match e {
            Event::Key(key) => self.on_key_event(key, queue),
            Event::Other => None,
        }
    }

    /// Hands the queued request to the worker, if one waits.
    pub fn take_work(&mut self) -> (work: Option<(HttpRequest, usize)>)
        requires
            old(self).wf(),
        ensures
            final(self).wf(),
            final(self)@ == (AppModel { stage: old(self)@.stage.take().0, ..old(self)@ }),
            work is Some == old(self)@.stage.take().1 is Some,
            work is Some ==> work->Some_0.0@ == old(self)@.stage.take().1->Some_0.0
                && work->Some_0.1 == old(self)@.stage.take().1->Some_0.1,
    {
        self.dispatcher.take()
    }

    /// Takes in what the worker brought back: a response waits for the next update,
    /// a failure joins the queue as an error message and leaves every panel as it is.
    pub fn complete(&mut self, outcome: Result<Response, String>, queue: &mut MessageQueue)
        requires
            old(self).wf(),
        ensures
            final(self).wf(),
            outcome is Ok ==> final(self)@ == (AppModel {
                stage: old(self)@.stage.succeed(outcome->Ok_0),
                ..old(self)@
            }) && final(queue)@ == old(queue)@,
            outcome is Err ==> final(self)@ == (AppModel {
                stage: old(self)@.stage.fail(),
                ..old(self)@
            }),
            outcome is Err && old(self)@.stage.slot is Running ==> final(queue)@
                == old(queue)@.push(MessageModel::Error(outcome->Err_0@)),
            outcome is Err && !(old(self)@.stage.slot is Running) ==> final(queue)@ == old(queue)@,
    {
        self.dispatcher.complete(outcome, queue);
    }

    /// The work of one tick. A response that waits goes to the panel of its request,
    /// which shows it from the first line with no popup open; every other panel stays
    /// as it is. Then, where no message is shown, the oldest message of the queue is.
    pub fn update(&mut self, queue: &mut MessageQueue)
        requires
            old(self).wf(),
        ensures
            final(self).wf(),
            final(self)@.requests == old(self)@.requests,
            final(self)@.selected == old(self)@.selected,
            final(self)@.focus == old(self)@.focus,
            final(self)@.should_exit == old(self)@.should_exit,
            final(self)@.file_path == old(self)@.file_path,
            final(self)@.stage == old(self)@.stage.drain().0,
            final(self)@.panels.len() == old(self)@.panels.len(),
            forall|j: int|
                0 <= j < old(self)@.panels.len() && !(old(self)@.stage.slot is Done
                    && old(self)@.stage.slot->Done_1 == j) ==> #[trigger] final(self)@.panels[j]
                    == old(self)@.panels[j],
            old(self)@.stage.slot is Done ==> ({
                let panel = final(self)@.panels[old(self)@.stage.slot->Done_1 as int];
                &&& panel.content() == Some(old(self)@.stage.slot->Done_0)
                &&& panel@ == (PanelModel {
                    scroll: 0,
                    option: SaveOption::All,
                    menu: None,
                    path: None,
                })
            }),
            old(self)@.popup is Some || old(queue)@.len() == 0 ==> final(self)@.popup
                == old(self)@.popup && final(queue)@ == old(queue)@,
            old(self)@.popup is None && old(queue)@.len() > 0 ==> final(self)@.popup == Some(
                old(queue)@[0],
            ) && final(queue)@ == old(queue)@.subrange(1, old(queue)@.len() as int),
    {
        match self.dispatcher.drain() {
            Some((response, i)) => {
                self.responses.set(i, ResponsePanel::from(response));
            },
            None => {},
        }
        if self.message_popup.is_none() {
            match MessageDialog::pop_message(queue) {
                Some(dialog) => {
                    self.message_popup = Some(Popup::new(dialog));
                },
                None => {},
            }
        }
    }

    /// Ends the save that the panel `index` asked for. Where the file was written,
    /// the panel closes its path field and the information `Saved to ` with the path
    /// joins the queue. Where writing failed, the failure joins the queue as an error
    /// message and the panel stays as it is.
    pub fn save_finished(
        &mut self,
        index: usize,
        path: &str,
        outcome: Result<(), String>,
        queue: &mut MessageQueue,
    )
        requires
            old(self).wf(),
            index < old(self)@.panels.len(),
        ensures
            final(self).wf(),
            outcome is Err ==> final(self)@ == old(self)@ && final(queue)@ == old(queue)@.push(
                MessageModel::Error(outcome->Err_0@),
            ),
            outcome is Ok ==> final(self)@ == (AppModel {
                panels: old(self)@.panels.update(index as int, final(self)@.panels[index as int]),
                ..old(self)@
            }) && final(self)@.panels[index as int].content()
                == old(self)@.panels[index as int].content()
                && final(self)@.panels[index as int]@
                == (PanelModel { path: None, ..old(self)@.panels[index as int]@ })
                && final(queue)@ == old(queue)@.push(MessageModel::Info(saved_text(path@))),
    {
        match outcome {
            Ok(_) => {
                let mut panel = self.responses.remove(index);
                panel.saved(path, queue);
                self.responses.insert(index, panel);
                proof {
                    assert(self.responses@ =~= old(self).responses@.update(index as int, panel));
                }
            },
            Err(text) => {
                MessageDialog::push_message(queue, Message::Error(text));
            },
        }
    }
}

} // verus!
