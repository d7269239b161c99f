//! The list of requests, and the lines that stand for a request in it.

use vstd::prelude::*;
use vstd::string::*;
use crate::cursor::{spec_next, spec_previous};
use crate::key::{HandleSuccess, Key};
use crate::menu::MenuItem;
use crate::parser::{HttpRequest, RequestModel};
use crate::response::header_line;
use crate::stateful_list::StatefulList;
use crate::text::{lines, spec_lines, views};

verus! {

impl RequestModel {
    /// The first line of a request in the list: method, target, and `HTTP/` with the
    /// version.
    pub open spec fn first_line(self) -> Seq<char> {
        self.method.spec_name() + seq![' '] + self.url + seq![' ', 'H', 'T', 'T', 'P', '/']
            + self.version
    }

    /// First line, one line per header, and an empty line.
    pub open spec fn head_lines(self) -> Seq<Seq<char>> {
        seq![self.first_line()] + self.headers.map_values(
            |h: (Seq<char>, Seq<char>)| header_line(h),
        ) + seq![Seq::<char>::empty()]
    }

    /// The lines of a request in the list: the head, and for a body that is not
    /// empty the body on one line and an empty line.
    pub open spec fn list_lines(self) -> Seq<Seq<char>> {
        if self.body.len() == 0 {
            self.head_lines()
        } else {
            self.head_lines() + seq![self.body, Seq::<char>::empty()]
        }
    }

    /// The lines of a request in a menu: the head, and for a body that is not empty
    /// the lines of the body and an empty line.
    pub open spec fn menu_lines(self) -> Seq<Seq<char>> {
        if self.body.len() == 0 {
            self.head_lines()
        } else {
            self.head_lines() + spec_lines(self.body) + seq![Seq::<char>::empty()]
        }
    }
}

fn head_lines(req: &HttpRequest) -> (out: Vec<String>)
    ensures
        views(out@) == req@.head_lines(),
{
    proof {
        reveal_strlit(" ");
        reveal_strlit(" HTTP/");
        reveal_strlit(": ");
    }
    let mut first = String::from_str(req.method.as_str());
    first.append(" ");
    first.append(req.url.as_str());
    first.append(" HTTP/");
    first.append(req.version.as_str());
    assert(first@ =~= req@.first_line());
    let mut out: Vec<String> = Vec::new();
    out.push(first);
    let ghost want = req@.headers.map_values(|h: (Seq<char>, Seq<char>)| header_line(h));
    let mut i: usize = 0;
    assert(views(out@) =~= seq![req@.first_line()] + want.subrange(0, 0));
    while i < req.headers.pairs.len()
        invariant
            i <= req.headers.pairs.len(),
            want == req@.headers.map_values(|h: (Seq<char>, Seq<char>)| header_line(h)),
            views(out@) == seq![req@.first_line()] + want.subrange(0, i as int),
        decreases req.headers.pairs.len() - i,
    {
        proof {
            reveal_strlit(": ");
        }
        let mut line = req.headers.pairs[i].0.clone();
        line.append(": ");
        line.append(req.headers.pairs[i].1.as_str());
        assert(line@ =~= want[i as int]);
        assert(views(out@.push(line)) =~= views(out@).push(line@));
        assert((seq![req@.first_line()] + want.subrange(0, i as int)).push(want[i as int])
            =~= seq![req@.first_line()] + want.subrange(0, i + 1));
        out.push(line);
        i = i + 1;
    }
    assert(want.subrange(0, i as int) =~= want);
    let ghost before = views(out@);
    let blank = String::new();
    assert(views(out@.push(blank)) =~= before + seq![Seq::<char>::empty()]);
    out.push(blank);
    out
}

/// The lines that stand for a request in the list.
pub fn draw_request(req: &HttpRequest) -> (out: Vec<String>)
    ensures
        views(out@) == req@.list_lines(),
{
    let mut out = head_lines(req);
    if req.body.as_str().unicode_len() > 0 {
        let ghost before = views(out@);
        let body = req.body.clone();
        let blank = String::new();
        assert(views(out@.push(body).push(blank)) =~= before + seq![
            req@.body,
            Seq::<char>::empty(),
        ]);
        out.push(body);
        out.push(blank);
    }
    out
}

impl MenuItem for HttpRequest {
    open spec fn lines(&self) -> Seq<Seq<char>> {
        self@.menu_lines()
    }

    /// The lines that stand for the request in a menu.
    fn render(&self) -> (out: Vec<String>) {
        let mut out = head_lines(self);
        if self.body.as_str().unicode_len() > 0 {
            let ghost before = views(out@);
            let mut body = lines(self.body.as_str());
            let ghost middle = views(body@);
            out.append(&mut body);
            let blank = String::new();
            assert(views(out@.push(blank)) =~= before + middle + seq![Seq::<char>::empty()]);
            out.push(blank);
        }
        out
    }
}

/// The requests with one of them selected.
pub struct RequestList {
    list: StatefulList<HttpRequest>,
}

impl RequestList {
    /// The requests, in order.
    pub closed spec fn items(&self) -> Seq<HttpRequest> {
        self.list.spec_items()
    }

    /// The index of the selected request.
    pub closed spec fn spec_selected_index(&self) -> int {
        self.list.spec_selected_index()
    }

    /// The selection is the index of a request, or 0 where there is none.
    pub closed spec fn wf(&self) -> bool {
        self.list.wf() && self.list.spec_state() is Some
    }

    /// What follows from `wf`.
    pub proof fn wf_facts(&self)
        requires
            self.wf(),
        ensures
            0 <= self.spec_selected_index(),
            self.spec_selected_index() < self.items().len() || (self.items().len() == 0
                && self.spec_selected_index() == 0),
    {
    }

    /// A list of `value`, however many, with the first request selected.
    pub fn from(value: Vec<HttpRequest>) -> (list: RequestList)
        ensures
            list.wf(),
            list.items() == value@,
            list.spec_selected_index() == 0,
    {
        RequestList { list: StatefulList::from(value) }
    }

    /// Moves the selection forward on `j` and the down arrow and backward on `k` and
    /// the up arrow, round the list, and ignores every other key. There is a request
    /// to select.
    pub fn on_event(&mut self, key: Key) -> (handled: HandleSuccess)
        requires
            old(self).wf(),
            old(self).items().len() > 0,
        ensures
            final(self).wf(),
            final(self).items() == old(self).items(),
            final(self).spec_selected_index() == (if key.is_down() {
                spec_next(old(self).spec_selected_index(), old(self).items().len() as int)
            } else if key.is_up() {
                spec_previous(old(self).spec_selected_index(), old(self).items().len() as int)
            } else {
                old(self).spec_selected_index()
            }),
            handled == (if key.is_down() || key.is_up() {
                HandleSuccess::Consumed
            } else {
                HandleSuccess::Ignored
            }),
    {
        proof {
            let i = self.list.spec_selected_index();
            let n = self.list.spec_items().len() as int;
            crate::cursor::next_stays_inside(i, n);
            assert(self.list.spec_state() == Some(i as usize));
            assert(0 <= spec_previous(i, n) < n);
        }
        if key.is_down() {
            self.list.next();
            HandleSuccess::Consumed
        } else if key.is_up() {
            self.list.previous();
            HandleSuccess::Consumed
        } else {
            HandleSuccess::Ignored
        }
    }

    /// The index of the selected request.
    pub fn selected_index(&self) -> (i: usize)
        ensures
            i == self.spec_selected_index(),
    {
        self.list.selected_index()
    }

    /// The selected request, where there is a request.
    pub fn selected(&self) -> (request: &HttpRequest)
        requires
            self.wf(),
            self.items().len() > 0,
        ensures
            *request == self.items()[self.spec_selected_index()],
    {
        self.list.selected()
    }

    /// The lines of every request, in order.
    pub fn render(&self) -> (out: Vec<Vec<String>>)
        ensures
            out@.len() == self.items().len(),
            forall|i: int|
                0 <= i < out@.len() ==> views((#[trigger] out@[i])@)
                    == self.items()[i]@.list_lines(),
    {
        let items = self.list.items();
        let mut out: Vec<Vec<String>> = Vec::new();
        let mut i: usize = 0;
        while i < items.len()
            invariant
                i <= items.len(),
                items@ == self.items(),
                out@.len() == i,
                forall|j: int|
                    0 <= j < i ==> views((#[trigger] out@[j])@) == self.items()[j]@.list_lines(),
            decreases items.len() - i,
        {
            out.push(draw_request(&items[i]));
            i = i + 1;
        }
        out
    }
}

} // verus!
