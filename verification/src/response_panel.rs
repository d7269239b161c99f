//! The viewer of one response: scrolling, and the steps that lead to saving it.

use vstd::prelude::*;
use vstd::string::*;
use tui_input::Input;
use crate::input::{
    cursor_offset, field_of, fixed, input_empty, input_handle_key, input_text,
    input_visual_cursor, input_visual_scroll, spec_cursor_offset, visual_cursor_of,
    visual_scroll_of, PathField,
};
use crate::key::{HandleSuccess, Key, KeyCode, KeyKind};
use crate::menu::{Menu, MenuItem};
use crate::message::{Message, MessageDialog, MessageModel, MessageQueue};
use crate::popup::Popup;
use crate::response::{Color, Response};
use crate::text::{decimal, spec_decimal, views};

verus! {

/// What part of a response is saved.
#[derive(Clone, Copy, Debug, PartialEq, Eq, Structural)]
pub enum SaveOption {
    All,
    Body,
}

impl Default for SaveOption {
    fn default() -> (option: SaveOption)
        ensures
            option == SaveOption::All,
    {
        SaveOption::All
    }
}

impl SaveOption {
    /// The options in the order in which the save menu lists them.
    pub open spec fn all() -> Seq<SaveOption> {
        seq![SaveOption::All, SaveOption::Body]
    }

    /// The options in the order in which the save menu lists them.
    pub fn iterator() -> (options: Vec<SaveOption>)
        ensures
            options@ == Self::all(),
    {
        let options = vec![SaveOption::All, SaveOption::Body];
        assert(options@ =~= Self::all());
        options
    }

    /// The entry of the save menu for this option.
    pub fn label(&self) -> (text: &'static str)
        ensures
            text@ == (match self {
                SaveOption::All => "Save entire response"@,
                SaveOption::Body => "Save response body"@,
            }),
    {
        match self {
            SaveOption::All => "Save entire response",
            SaveOption::Body => "Save response body",
        }
    }

    /// The bytes that go to the file for this option: the whole response, or its
    /// payload alone.
    pub open spec fn bytes_of(self, response: Response) -> Seq<u8> {
        match self {
            SaveOption::All => response.spec_bytes(),
            SaveOption::Body => response.payload.spec_bytes(),
        }
    }
}

impl MenuItem for SaveOption {
    open spec fn lines(&self) -> Seq<Seq<char>> {
        seq![
            match self {
                SaveOption::All => "Save entire response"@,
                SaveOption::Body => "Save response body"@,
            },
        ]
    }

    /// The entry of the save menu for this option, on one line.
    fn render(&self) -> (out: Vec<String>) {
        let out = vec![String::from_str(self.label())];
        assert(views(out@) =~= self.lines());
        out
    }
}

/// Why a key could not be acted on.
#[derive(Clone, Copy, Debug, PartialEq, Eq, Structural)]
pub enum UiError {
    /// A save was confirmed with an empty path.
    EmptyFilename,
    /// A save was confirmed on a panel that holds no response.
    RequestNotSent,
}

impl UiError {
    /// The text shown for the error.
    pub open spec fn spec_message(self) -> Seq<char> {
        match self {
            UiError::EmptyFilename => "File name is empty"@,
            UiError::RequestNotSent => "Request not sent"@,
        }
    }

    /// The text shown for the error.
    pub fn message(&self) -> (text: &'static str)
        ensures
            text@ == self.spec_message(),
    {
        match self {
            UiError::EmptyFilename => "File name is empty",
            UiError::RequestNotSent => "Request not sent",
        }
    }
}

/// A file to write: where, and what.
#[derive(Debug)]
pub struct SaveRequest {
    pub path: String,
    pub data: Vec<u8>,
}

/// What a panel did with a key, and the file that it asks to have written.
#[derive(Debug)]
pub struct PanelStep {
    pub handled: HandleSuccess,
    pub save: Option<SaveRequest>,
}

/// The state of a panel as plain values: how far the view is scrolled, the chosen
/// save option, the selection of the save menu where it is open, and the path field
/// where that is open.
pub struct PanelModel {
    pub scroll: u16,
    pub option: SaveOption,
    pub menu: Option<int>,
    pub path: Option<PathField>,
}

/// Where a panel stands in its save workflow.
#[derive(Clone, Copy, Debug, PartialEq, Eq, Structural)]
pub enum PanelState {
    Viewing,
    ChoosingSaveMode,
    EnteringPath,
}

/// The ways in which a key can end.
pub enum Outcome {
    Consumed,
    Ignored,
    Save,
    EmptyFilename,
    RequestNotSent,
}

impl PanelModel {
    /// The path field is served first, then the save menu.
    pub open spec fn state(self) -> PanelState {
        if self.path is Some {
            PanelState::EnteringPath
        } else if self.menu is Some {
            PanelState::ChoosingSaveMode
        } else {
            PanelState::Viewing
        }
    }

    /// The state and the outcome that follow a key. `loaded` says whether the panel
    /// holds a response; `consumed` says whether the path field, where it is open,
    /// reacted to the key, in which case `self` already holds its new text.
    ///
    /// An open path field comes first: a key that it consumed ends there; enter asks
    /// for the file to be written, or fails on an empty path or a missing response,
    /// and the field stays open; escape closes the field. An open save menu comes
    /// next: `j`, `k` and the arrows move its selection, enter takes the selected
    /// option and opens an empty path field, escape closes the menu. Otherwise `j`
    /// and down scroll one line further, `k` and up one line back, never past the ends
    /// of the range, `s` and `S` open the save menu; every other key is ignored.
    pub open spec fn step(self, loaded: bool, key: Key, consumed: bool) -> (PanelModel, Outcome) {
        if self.path is Some && consumed {
            (self, Outcome::Consumed)
        } else if self.path is Some && key.code == KeyCode::Enter {
            if self.path->Some_0.text.len() == 0 {
                (self, Outcome::EmptyFilename)
            } else if !loaded {
                (self, Outcome::RequestNotSent)
            } else {
                (self, Outcome::Save)
            }
        } else if self.path is Some && key.code == KeyCode::Esc {
            (PanelModel { path: None, ..self }, Outcome::Consumed)
        } else if self.menu is Some && (key.is_down() || key.is_up()) {
            (
                PanelModel {
                    menu: Some(Menu::<SaveOption>::idx_after(self.menu->Some_0, 2, key)),
                    ..self
                },
                Outcome::Consumed,
            )
        } else if self.menu is Some && key.code == KeyCode::Enter {
            (
                PanelModel {
                    option: SaveOption::all()[self.menu->Some_0],
                    menu: None,
                    path: Some(PathField::empty()),
                    ..self
                },
                Outcome::Consumed,
            )
        } else if self.menu is Some && key.code == KeyCode::Esc {
            (PanelModel { menu: None, ..self }, Outcome::Consumed)
        } else if key.is_down() {
            (
                PanelModel {
                    scroll: if self.scroll < u16::MAX {
                        (self.scroll + 1) as u16
                    } else {
                        self.scroll
                    },
                    ..self
                },
                Outcome::Consumed,
            )
        } else if key.is_up() {
            (
                PanelModel {
                    scroll: if self.scroll > 0 {
                        (self.scroll - 1) as u16
                    } else {
                        self.scroll
                    },
                    ..self
                },
                Outcome::Consumed,
            )
        } else if key.code == KeyCode::Char('s') || key.code == KeyCode::Char('S') {
            (PanelModel { menu: Some(0), ..self }, Outcome::Consumed)
        } else {
            (self, Outcome::Ignored)
        }
    }
}

/// The parts of the first line of a response, for the painter to set the status off.
pub struct StatusLine {
    /// The protocol version.
    pub version: String,
    /// The status code in base ten.
    pub code: String,
    /// The colour of the status code.
    pub color: Color,
}

/// What the panel shows.
pub struct PanelFace {
    /// The lines of the content, before scrolling.
    pub lines: Vec<String>,
    /// The parts of the first line, where a response is shown.
    pub status: Option<StatusLine>,
    /// The number of lines scrolled past.
    pub scroll: u16,
    /// Whether the content is longer than the area and a scrollbar is drawn.
    pub scrollbar: bool,
    /// The text of the path field, where it is open.
    pub path: Option<String>,
    /// The selection of the save menu, where it is open.
    pub menu: Option<usize>,
}

/// The viewer of one response.
pub struct ResponsePanel {
    content: Option<Response>,
    scroll: u16,
    input_popup: Option<Popup<Input>>,
    save_option: SaveOption,
    save_menu: Option<Popup<Menu<SaveOption>>>,
}

/// The line shown by a panel that holds no response.
pub open spec fn empty_placeholder() -> Seq<char> {
    seq!['<', 'E', 'm', 'p', 't', 'y', '>']
}

/// The text of the information that follows a save: `Saved to ` and the path.
pub open spec fn saved_text(path: Seq<char>) -> Seq<char> {
    seq!['S', 'a', 'v', 'e', 'd', ' ', 't', 'o', ' '] + path
}

impl View for ResponsePanel {
    type V = PanelModel;

    closed spec fn view(&self) -> PanelModel {
        PanelModel {
            scroll: self.scroll,
            option: self.save_option,
            menu: match self.save_menu {
                Some(popup) => Some(popup.component.spec_idx()),
                None => None,
            },
            path: match self.input_popup {
                Some(popup) => Some(field_of(popup.component)),
                None => None,
            },
        }
    }
}

impl Default for ResponsePanel {
    /// A panel that holds no response.
    fn default() -> (panel: ResponsePanel)
        ensures
            panel.wf(),
            panel.content() is None,
            panel@ == (PanelModel { scroll: 0, option: SaveOption::All, menu: None, path: None }),
    {
        ResponsePanel::new()
    }
}

impl ResponsePanel {
    /// The response on display, if any.
    pub closed spec fn content(&self) -> Option<Response> {
        self.content
    }

    /// An open save menu lists the two save options and selects one of them; the
    /// cursor of an open path field stands inside its text or at its end.
    pub closed spec fn wf(&self) -> bool {
        &&& match self.save_menu {
            Some(popup) => popup.component.wf() && popup.component.items() == SaveOption::all(),
            None => true,
        }
        &&& match self.input_popup {
            Some(popup) => field_of(popup.component).inside(),
            None => true,
        }
    }

    /// What follows from `wf` for the model.
    pub proof fn wf_facts(&self)
        requires
            self.wf(),
        ensures
            self@.menu is Some ==> 0 <= self@.menu->Some_0 < 2,
            self@.path is Some ==> self@.path->Some_0.inside(),
    {
    }

    /// True when `result` is what `outcome` asks for, from a panel with model `pre`
    /// and content `content`: the save request carries the path of the field and the
    /// bytes that the chosen option takes from the response.
    pub open spec fn result_is(
        result: Result<PanelStep, UiError>,
        outcome: Outcome,
        pre: PanelModel,
        content: Option<Response>,
    ) -> bool {
        match outcome {
            Outcome::Consumed => result is Ok && result->Ok_0.handled == HandleSuccess::Consumed
                && result->Ok_0.save is None,
            Outcome::Ignored => result is Ok && result->Ok_0.handled == HandleSuccess::Ignored
                && result->Ok_0.save is None,
            Outcome::Save => {
                &&& result is Ok
                &&& result->Ok_0.handled == HandleSuccess::Consumed
                &&& result->Ok_0.save is Some
                &&& pre.path is Some
                &&& content is Some
                &&& result->Ok_0.save->Some_0.path@ == pre.path->Some_0.text
                &&& result->Ok_0.save->Some_0.data@ == pre.option.bytes_of(content->Some_0)
            },
            Outcome::EmptyFilename => result == Err::<PanelStep, UiError>(UiError::EmptyFilename),
            Outcome::RequestNotSent => result == Err::<PanelStep, UiError>(
                UiError::RequestNotSent,
            ),
        }
    }

    /// True when `post` and `result` follow from `pre` and `key`, given that an open
    /// path field was left as `typed` and said `consumed`. For the keys whose effect
    /// on a field is fixed, both are what [`PathField::pressed`] says.
    pub open spec fn follows_with(
        pre: ResponsePanel,
        key: Key,
        post: ResponsePanel,
        result: Result<PanelStep, UiError>,
        consumed: bool,
        typed: PathField,
    ) -> bool {
        let mid = PanelModel {
            path: if pre@.path is Some {
                Some(typed)
            } else {
                None
            },
            ..pre@
        };
        &&& pre@.path is None ==> !consumed
        &&& pre@.path is Some && fixed(key) ==> (typed, consumed) == pre@.path->Some_0.pressed(key)
        &&& typed.inside()
        &&& post@ == mid.step(pre.content() is Some, key, consumed).0
        &&& Self::result_is(
            result,
            mid.step(pre.content() is Some, key, consumed).1,
            mid,
            pre.content(),
        )
    }

    /// True when `post` and `result` follow from `pre` and `key`, whatever an open
    /// path field did with the key. Where no path field is open, and for the keys
    /// whose effect on a field is fixed, this fixes `post` and `result`.
    pub open spec fn follows(
        pre: ResponsePanel,
        key: Key,
        post: ResponsePanel,
        result: Result<PanelStep, UiError>,
    ) -> bool {
        exists|consumed: bool, typed: PathField| #[trigger]
            Self::follows_with(pre, key, post, result, consumed, typed)
    }

    /// A panel that holds no response.
    pub fn new() -> (panel: ResponsePanel)
        ensures
            panel.wf(),
            panel.content() is None,
            panel@ == (PanelModel { scroll: 0, option: SaveOption::All, menu: None, path: None }),
    {
        ResponsePanel {
            content: None,
            scroll: 0,
            input_popup: None,
            save_option: SaveOption::All,
            save_menu: None,
        }
    }

    /// A panel that shows `value` from its first line, with no popup open.
    pub fn from(value: Response) -> (panel: ResponsePanel)
        ensures
            panel.wf(),
            panel.content() == Some(value),
            panel@ == (PanelModel { scroll: 0, option: SaveOption::All, menu: None, path: None }),
    {
        ResponsePanel {
            content: Some(value),
            scroll: 0,
            input_popup: None,
            save_option: SaveOption::All,
            save_menu: None,
        }
    }

    /// The number of lines scrolled past.
    pub fn scroll(&self) -> (scroll: u16)
        ensures
            scroll == self@.scroll,
    {
        self.scroll
    }

    /// The response on display, if any.
    pub fn response(&self) -> (content: &Option<Response>)
        ensures
            *content == self.content(),
    {
        &self.content
    }

    /// Where the panel stands in its save workflow.
    pub fn state(&self) -> (state: PanelState)
        ensures
            state == self@.state(),
    {
        if self.input_popup.is_some() {
            PanelState::EnteringPath
        } else if self.save_menu.is_some() {
            PanelState::ChoosingSaveMode
        } else {
            PanelState::Viewing
        }
    }

    /// The text of the path field, where it is open.
    pub fn path(&self) -> (path: Option<String>)
        ensures
            path is Some == self@.path is Some,
            path is Some ==> path->Some_0@ == self@.path->Some_0.text,
    {
        match &self.input_popup {
            Some(popup) => Some(input_text(&popup.component)),
            None => None,
        }
    }

    /// The column of the cursor inside the path field, where it is open, for a field
    /// that is `width` columns wide.
    pub fn path_cursor(&self, width: u16) -> (column: Option<u16>)
        ensures
            column == (match self@.path {
                Some(field) => Some(
                    spec_cursor_offset(
                        visual_cursor_of(field.text, field.cursor),
                        visual_scroll_of(field.text, field.cursor, width as usize),
                    ),
                ),
                None => None,
            }),
    {
        match &self.input_popup {
            Some(popup) => {
                let scroll = input_visual_scroll(&popup.component, width as usize);
                let cursor = input_visual_cursor(&popup.component);
                Some(cursor_offset(cursor, scroll))
            },
            None => None,
        }
    }

    /// Scrolls one line further, up to the largest offset.
    pub fn scroll_down(&mut self)
        ensures
            final(self).content() == old(self).content(),
            final(self).wf() == old(self).wf(),
            final(self)@ == (PanelModel {
                scroll: if old(self)@.scroll < u16::MAX {
                    (old(self)@.scroll + 1) as u16
                } else {
                    old(self)@.scroll
                },
                ..old(self)@
            }),
    {
        self.scroll = self.scroll.saturating_add(1);
    }

    /// Scrolls one line back, down to offset 0 and never below.
    pub fn scroll_up(&mut self)
        ensures
            final(self).content() == old(self).content(),
            final(self).wf() == old(self).wf(),
            final(self)@ == (PanelModel {
                scroll: if old(self)@.scroll > 0 {
                    (old(self)@.scroll - 1) as u16
                } else {
                    old(self)@.scroll
                },
                ..old(self)@
            }),
    {
        self.scroll = self.scroll.saturating_sub(1);
    }

    /// The payload as it is saved; fails on a panel that holds no response.
    pub fn body(&self) -> (result: Result<Vec<u8>, UiError>)
        ensures
            self.content() is None ==> result == Err::<Vec<u8>, UiError>(UiError::RequestNotSent),
            self.content() is Some ==> result is Ok && result->Ok_0@
                == self.content()->Some_0.payload.spec_bytes(),
    {
        match &self.content {
            Some(response) => Ok(response.payload.to_bytes()),
            None => Err(UiError::RequestNotSent),
        }
    }

    /// The whole response as it is saved; fails on a panel that holds no response.
    pub fn to_bytes(&self) -> (result: Result<Vec<u8>, UiError>)
        ensures
            self.content() is None ==> result == Err::<Vec<u8>, UiError>(UiError::RequestNotSent),
            self.content() is Some ==> result is Ok && result->Ok_0@
                == self.content()->Some_0.spec_bytes(),
    {
        match &self.content {
            Some(response) => Ok(response.to_bytes()),
            None => Err(UiError::RequestNotSent),
        }
    }

    /// The lines that stand for the payload: those of the response, or the error text
    /// on a panel that holds none.
    pub fn body_as_string(&self) -> (out: Vec<String>)
        ensures
            self.content() is Some ==> views(out@)
                == self.content()->Some_0.payload.spec_lines(),
            self.content() is None ==> views(out@) == seq!["Request not sent"@],
    {
        match &self.content {
            Some(response) => response.payload.display_lines(),
            None => {
                let out = vec![String::from_str(UiError::RequestNotSent.message())];
                assert(views(out@) =~= seq!["Request not sent"@]);
                out
            },
        }
    }

    /// Acts on `key` after an open path field has seen it: `consumed` says whether
    /// the field reacted. The new state and the result are those of
    /// [`PanelModel::step`].
    pub fn after_input(&mut self, key: Key, consumed: bool) -> (result: Result<PanelStep, UiError>)
        requires
            old(self).wf(),
        ensures
            final(self).wf(),
            final(self).content() == old(self).content(),
            final(self)@ == old(self)@.step(old(self).content() is Some, key, consumed).0,
            Self::result_is(
                result,
                old(self)@.step(old(self).content() is Some, key, consumed).1,
                old(self)@,
                old(self).content(),
            ),
    {
        if self.input_popup.is_some() {
            if consumed {
                return Ok(PanelStep { handled: HandleSuccess::Consumed, save: None });
            }
            match key.code {
                KeyCode::Enter => {
                    let path = match &self.input_popup {
                        Some(popup) => input_text(&popup.component),
                        None => String::new(),
                    };
                    if path.as_str().unicode_len() == 0 {
                        return Err(UiError::EmptyFilename);
                    }
                    let data = match self.save_option {
                        SaveOption::All => self.to_bytes(),
                        SaveOption::Body => self.body(),
                    };
                    return match data {
                        Ok(data) => Ok(
                            PanelStep {
                                handled: HandleSuccess::Consumed,
                                save: Some(SaveRequest { path, data }),
                            },
                        ),
                        Err(e) => Err(e),
                    };
                },
                KeyCode::Esc => {
                    self.input_popup = None;
                    return Ok(PanelStep { handled: HandleSuccess::Consumed, save: None });
                },
                _ => {},
            }
        }
        if self.save_menu.is_some() {
            let mut popup = self.save_menu.take().unwrap();
            let handled = popup.component.on_event(key);
            match handled {
                HandleSuccess::Consumed => {
                    self.save_menu = Some(popup);
                    return Ok(PanelStep { handled: HandleSuccess::Consumed, save: None });
                },
                HandleSuccess::Ignored => {},
            }
            match key.code {
                KeyCode::Enter => {
                    self.save_option = *popup.component.selected();
                    self.input_popup = Some(Popup::new(input_empty()));
                    return Ok(PanelStep { handled: HandleSuccess::Consumed, save: None });
                },
                KeyCode::Esc => {
                    return Ok(PanelStep { handled: HandleSuccess::Consumed, save: None });
                },
                _ => {
                    self.save_menu = Some(popup);
                },
            }
        }
        let opens_menu = match key.code {
            KeyCode::Char(c) => c == 's' || c == 'S',
            _ => false,
        };
        if key.is_down() {
            self.scroll_down();
        } else if key.is_up() {
            self.scroll_up();
        } else if opens_menu {
            self.save_menu = Some(Popup::new(Menu::new(SaveOption::iterator())));
        } else {
            return Ok(PanelStep { handled: HandleSuccess::Ignored, save: None });
        }
        Ok(PanelStep { handled: HandleSuccess::Consumed, save: None })
    }

    /// Offers `key` to the panel: first to an open path field, then to the rest as
    /// [`ResponsePanel::after_input`] says. The response on display never changes.
    pub fn on_event(&mut self, key: Key) -> (result: Result<PanelStep, UiError>)
        requires
            old(self).wf(),
        ensures
            final(self).wf(),
            final(self).content() == old(self).content(),
            Self::follows(*old(self), key, *final(self), result),
    {
        let mut consumed = false;
        if self.input_popup.is_some() && key.is_press() {
            let mut popup = self.input_popup.take().unwrap();
            consumed = input_handle_key(&mut popup.component, key);
            self.input_popup = Some(popup);
        }
        let ghost typed = if self@.path is Some {
            self@.path->Some_0
        } else {
            PathField::empty()
        };
        let ghost mid = self@;
        let result = self.after_input(key, consumed);
        proof {
            assert(mid == (PanelModel {
                path: if old(self)@.path is Some {
                    Some(typed)
                } else {
                    None
                },
                ..old(self)@
            }));
            assert(Self::follows_with(*old(self), key, *self, result, consumed, typed));
        }
        result
    }

    /// Ends a save whose file was written to `path`: the path field closes, and the
    /// information `Saved to ` with the path joins the queue.
    pub fn saved(&mut self, path: &str, queue: &mut MessageQueue)
        requires
            old(self).wf(),
        ensures
            final(self).wf(),
            final(self).content() == old(self).content(),
            final(self)@ == (PanelModel { path: None, ..old(self)@ }),
            final(queue)@ == old(queue)@.push(MessageModel::Info(saved_text(path@))),
    {
        proof {
            reveal_strlit("Saved to ");
        }
        self.input_popup = None;
        let mut text = String::from_str("Saved to ");
        text.append(path);
        assert(text@ =~= saved_text(path@));
        MessageDialog::push_message(queue, Message::Info(text));
    }

    /// True when `face` is what the panel shows in an area of `area_height` rows: the
    /// lines of the response, or one placeholder line; the parts of the first line
    /// with the colour for the status code; the scroll offset; whether the line
    /// count, cut to sixteen bits, exceeds the area; and the open popups.
    pub open spec fn shown_as(&self, area_height: u16, face: PanelFace) -> bool {
        &&& self.content() is Some ==> {
            &&& views(face.lines@) == self.content()->Some_0.spec_lines()
            &&& face.status is Some
            &&& face.status->Some_0.version@ == self.content()->Some_0.version@
            &&& face.status->Some_0.code@ == spec_decimal(self.content()->Some_0.status as nat)
            &&& face.status->Some_0.color == crate::response::spec_status_code_color(
                self.content()->Some_0.status,
            )
        }
        &&& self.content() is None ==> views(face.lines@) == seq![empty_placeholder()]
            && face.status is None
        &&& face.scroll == self@.scroll
        &&& face.scrollbar == (face.lines@.len() % 0x10000 > area_height)
        &&& face.path is Some == self@.path is Some
        &&& face.path is Some ==> face.path->Some_0@ == self@.path->Some_0.text
        &&& face.menu is Some == self@.menu is Some
        &&& face.menu is Some ==> face.menu->Some_0 == self@.menu->Some_0
    }

    /// What the panel shows in an area of `area_height` rows.
    pub fn render(&self, area_height: u16) -> (face: PanelFace)
        ensures
            self.shown_as(area_height, face),
    {
        let (lines, status) = match &self.content {
            Some(response) => (
                response.display_lines(),
                Some(
                    StatusLine {
                        version: response.version.clone(),
                        code: decimal(response.status as u64),
                        color: crate::response::status_code_color(response.status),
                    },
                ),
            ),
            None => {
                proof {
                    reveal_strlit("<Empty>");
                }
                let line = String::from_str("<Empty>");
                assert(line@ =~= empty_placeholder());
                let lines = vec![line];
                assert(views(lines@) =~= seq![empty_placeholder()]);
                (lines, None)
            },
        };
        let count: usize = lines.len() % 0x10000;
        let scrollbar = count > area_height as usize;
        let menu = match &self.save_menu {
            Some(popup) => Some(popup.component.idx()),
            None => None,
        };
        PanelFace { lines, status, scroll: self.scroll, scrollbar, path: self.path(), menu }
    }
}

/// The scroll offset never goes below 0: whatever the key and the state, a step
/// moves it by at most one line, and from offset 0 a step never moves it down.
pub proof fn scroll_stays_in_range(pre: PanelModel, loaded: bool, key: Key, consumed: bool)
    ensures
        0 <= pre.step(loaded, key, consumed).0.scroll <= u16::MAX,
        pre.scroll - 1 <= pre.step(loaded, key, consumed).0.scroll <= pre.scroll + 1,
        pre.scroll == 0 ==> pre.step(loaded, key, consumed).0.scroll >= pre.scroll,
        pre.state() == PanelState::Viewing && key.is_up() && !key.is_down() && pre.scroll == 0
            ==> pre.step(loaded, key, consumed).0.scroll == 0,
{
}

/// Escape leaves the save workflow: with the path field open the field closes, else
/// with the save menu open the menu closes; no file is asked for, and the scroll
/// offset and the chosen option stay.
pub proof fn escape_discards_pending_save(pre: PanelModel, loaded: bool)
    ensures
        ({
            let key = Key { code: KeyCode::Esc, modifiers: 0, kind: KeyKind::Press };
            let next = pre.step(loaded, key, false);
            &&& pre.state() == PanelState::EnteringPath ==> next.0 == (PanelModel {
                path: None,
                ..pre
            }) && next.1 is Consumed
            &&& pre.state() == PanelState::ChoosingSaveMode ==> next.0.state()
                == PanelState::Viewing && next.1 is Consumed
            &&& pre.state() == PanelState::Viewing ==> next.0 == pre && next.1 is Ignored
            &&& next.0.scroll == pre.scroll
            &&& next.0.option == pre.option
        }),
{
}

} // verus!
