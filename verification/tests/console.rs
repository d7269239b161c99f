use rq::app::{App, FocusState};
use rq::input::cursor_offset;
use rq::key::{Event, HandleSuccess, Key, KeyCode, KeyKind, ALT, CONTROL, META, SHIFT};
use rq::message::{Message, MessageDialog, MessageQueue, Tone};
use rq::parser::parse;
use rq::response::{BytePayload, Color, Payload, Response, TextPayload};
use rq::response_panel::{PanelState, ResponsePanel, SaveOption, UiError};

fn key(code: KeyCode) -> Key {
    Key::plain(code)
}

fn ch(c: char) -> Key {
    Key::plain(KeyCode::Char(c))
}

fn text_response(body: &str) -> Response {
    Response {
        status: 200,
        headers: vec![
            ("content-type".to_string(), "text/plain".to_string()),
            ("x-id".to_string(), "7".to_string()),
        ],
        version: "HTTP/1.1".to_string(),
        payload: Payload::Text(TextPayload {
            extension: None,
            charset: "UTF-8".to_string(),
            text: body.to_string(),
        }),
    }
}

fn bytes_response(bytes: Vec<u8>) -> Response {
    Response {
        status: 404,
        headers: vec![("a".to_string(), "b".to_string())],
        version: "HTTP/2.0".to_string(),
        payload: Payload::Bytes(BytePayload { extension: Some("png".to_string()), bytes }),
    }
}

fn one_request_app() -> App {
    let file = parse("GET http://x HTTP/1.1").unwrap();
    assert_eq!(file.requests.len(), 1);
    App::new("requests.http".to_string(), file)
}

fn type_text(panel: &mut ResponsePanel, text: &str) {
    for c in text.chars() {
        let step = panel.on_event(ch(c)).unwrap();
        assert_eq!(step.handled, HandleSuccess::Consumed);
        assert!(step.save.is_none());
    }
}

fn open_path_field(panel: &mut ResponsePanel, body_only: bool) {
    assert!(panel.on_event(ch('s')).unwrap().save.is_none());
    assert_eq!(panel.state(), PanelState::ChoosingSaveMode);
    if body_only {
        panel.on_event(ch('j')).unwrap();
    }
    panel.on_event(key(KeyCode::Enter)).unwrap();
    assert_eq!(panel.state(), PanelState::EnteringPath);
    assert_eq!(panel.path().unwrap(), "");
}

#[test]
fn enter_twice_sends_and_the_panel_shows_the_response() {
    let mut app = one_request_app();
    let mut queue = MessageQueue::new();
    assert_eq!(app.focus(), FocusState::RequestsList);
    assert!(app.on_key_event(key(KeyCode::Enter), &mut queue).is_none());
    assert_eq!(app.focus(), FocusState::ResponseBuffer);
    assert!(app.in_flight().is_none());
    assert!(app.on_key_event(key(KeyCode::Enter), &mut queue).is_none());
    assert_eq!(app.focus(), FocusState::ResponseBuffer);
    assert_eq!((app.pending(), app.in_flight()), (1, None));
    let (request, index) = app.take_work().unwrap();
    assert_eq!(index, 0);
    assert_eq!(request.to_text(), "GET http://x HTTP/1.1 []");
    assert_eq!((app.pending(), app.in_flight()), (0, Some(0)));
    assert!(app.take_work().is_none());
    let response = Response {
        status: 200,
        headers: vec![],
        version: "HTTP/1.1".to_string(),
        payload: Payload::Text(TextPayload {
            extension: None,
            charset: "UTF-8".to_string(),
            text: "ok".to_string(),
        }),
    };
    app.complete(Ok(response), &mut queue);
    assert_eq!(app.in_flight(), Some(0));
    app.update(&mut queue);
    assert!(app.in_flight().is_none());
    let face = app.panel(0).render(10);
    assert_eq!(face.lines, vec!["HTTP/1.1 200".to_string(), "".to_string(), "ok".to_string()]);
    let status = face.status.unwrap();
    assert_eq!((status.version.as_str(), status.code.as_str()), ("HTTP/1.1", "200"));
    assert_eq!(status.color, Color::Green);
    assert!(!face.scrollbar);
    assert_eq!(queue.len(), 0);
}

#[test]
fn saving_the_body_asks_for_the_file_and_reports_it() {
    let mut app = one_request_app();
    let mut queue = MessageQueue::new();
    app.on_key_event(key(KeyCode::Enter), &mut queue);
    app.on_key_event(key(KeyCode::Enter), &mut queue);
    app.take_work().unwrap();
    app.complete(Ok(text_response("héllo\nworld\n")), &mut queue);
    app.update(&mut queue);
    assert!(app.on_key_event(ch('s'), &mut queue).is_none());
    assert_eq!(app.panel(0).state(), PanelState::ChoosingSaveMode);
    assert!(app.on_key_event(key(KeyCode::Down), &mut queue).is_none());
    assert!(app.on_key_event(key(KeyCode::Enter), &mut queue).is_none());
    assert_eq!(app.panel(0).state(), PanelState::EnteringPath);
    for c in "out.txt".chars() {
        assert!(app.on_key_event(ch(c), &mut queue).is_none());
    }
    assert_eq!(app.panel(0).path().unwrap(), "out.txt");
    let job = app.on_key_event(key(KeyCode::Enter), &mut queue).unwrap();
    assert_eq!(job.index, 0);
    assert_eq!(job.file.path, "out.txt");
    assert_eq!(job.file.data, "héllo\nworld\n".as_bytes().to_vec());
    assert_eq!(app.panel(0).state(), PanelState::EnteringPath);
    assert_eq!(queue.len(), 0);
    app.save_finished(job.index, &job.file.path, Ok(()), &mut queue);
    assert_eq!(app.panel(0).state(), PanelState::Viewing);
    assert_eq!(queue.len(), 1);
    assert!(app.message().is_none());
    app.update(&mut queue);
    assert_eq!(queue.len(), 0);
    assert_eq!(app.message().unwrap().content(), &Message::Info("Saved to out.txt".to_string()));
    let face = app.message().unwrap().render();
    assert_eq!(face.title, " info ");
    assert_eq!(face.tone, Tone::Good);
    assert_eq!(face.text, "Saved to out.txt");
    assert!(app.on_key_event(ch('q'), &mut queue).is_none());
    assert!(app.message().is_none());
    assert!(!app.should_exit());
    assert_eq!(app.focus(), FocusState::ResponseBuffer);
}

#[test]
fn escape_in_the_path_field_discards_the_save() {
    let mut panel = ResponsePanel::from(text_response("ok"));
    open_path_field(&mut panel, true);
    type_text(&mut panel, "out");
    assert_eq!(panel.path().unwrap(), "out");
    let step = panel.on_event(key(KeyCode::Esc)).unwrap();
    assert_eq!(step.handled, HandleSuccess::Consumed);
    assert!(step.save.is_none());
    assert_eq!(panel.state(), PanelState::Viewing);
    assert!(panel.path().is_none());
    let step = panel.on_event(key(KeyCode::Enter)).unwrap();
    assert_eq!(step.handled, HandleSuccess::Ignored);
    assert!(step.save.is_none());
}

#[test]
fn escape_in_the_save_menu_closes_it() {
    let mut panel = ResponsePanel::new();
    panel.on_event(ch('S')).unwrap();
    assert_eq!(panel.state(), PanelState::ChoosingSaveMode);
    assert_eq!(panel.render(5).menu, Some(0));
    panel.on_event(ch('k')).unwrap();
    assert_eq!(panel.render(5).menu, Some(1));
    panel.on_event(key(KeyCode::Down)).unwrap();
    assert_eq!(panel.render(5).menu, Some(0));
    let step = panel.on_event(key(KeyCode::Esc)).unwrap();
    assert_eq!(step.handled, HandleSuccess::Consumed);
    assert_eq!(panel.state(), PanelState::Viewing);
    assert_eq!(panel.on_event(key(KeyCode::Esc)).unwrap().handled, HandleSuccess::Ignored);
}

#[test]
fn empty_path_is_refused_and_the_field_stays_open() {
    let mut panel = ResponsePanel::from(text_response("ok"));
    open_path_field(&mut panel, false);
    assert_eq!(panel.on_event(key(KeyCode::Enter)).unwrap_err(), UiError::EmptyFilename);
    assert_eq!(panel.state(), PanelState::EnteringPath);
    type_text(&mut panel, "a");
    let step = panel.on_event(key(KeyCode::Backspace)).unwrap();
    assert_eq!(step.handled, HandleSuccess::Consumed);
    assert_eq!(panel.on_event(key(KeyCode::Enter)).unwrap_err(), UiError::EmptyFilename);
    assert_eq!(UiError::EmptyFilename.message(), "File name is empty");
}

#[test]
fn saving_from_an_empty_panel_fails() {
    let mut panel = ResponsePanel::new();
    open_path_field(&mut panel, false);
    type_text(&mut panel, "x");
    assert_eq!(panel.on_event(key(KeyCode::Enter)).unwrap_err(), UiError::RequestNotSent);
    assert_eq!(panel.state(), PanelState::EnteringPath);
    assert_eq!(panel.body().unwrap_err(), UiError::RequestNotSent);
    assert_eq!(panel.to_bytes().unwrap_err(), UiError::RequestNotSent);
    assert_eq!(panel.body_as_string(), vec!["Request not sent".to_string()]);
    assert_eq!(UiError::RequestNotSent.message(), "Request not sent");
    let face = panel.render(3);
    assert_eq!(face.lines, vec!["<Empty>".to_string()]);
    assert!(face.status.is_none());
    assert_eq!(face.path, Some("x".to_string()));
}

#[test]
fn entire_response_is_saved_byte_for_byte() {
    let mut panel = ResponsePanel::from(text_response("line 1\r\nline 2\n"));
    open_path_field(&mut panel, false);
    type_text(&mut panel, "all.txt");
    let step = panel.on_event(key(KeyCode::Enter)).unwrap();
    let save = step.save.unwrap();
    assert_eq!(save.path, "all.txt");
    assert_eq!(
        String::from_utf8(save.data).unwrap(),
        "HTTP/1.1 200\ncontent-type: text/plain\nx-id: 7\n\n\nline 1\r\nline 2\n"
    );
    assert_eq!(panel.body().unwrap(), b"line 1\r\nline 2\n".to_vec());
}

#[test]
fn raw_bytes_are_saved_verbatim_and_shown_as_a_placeholder() {
    let raw = vec![0u8, 159, 146, 150, 255, 10];
    let mut panel = ResponsePanel::from(bytes_response(raw.clone()));
    let face = panel.render(2);
    assert_eq!(
        face.lines,
        vec!["HTTP/2.0 404".to_string(), "a: b".to_string(), "".to_string(), "raw bytes".to_string()]
    );
    let status = face.status.as_ref().unwrap();
    assert_eq!((status.version.as_str(), status.code.as_str()), ("HTTP/2.0", "404"));
    assert_eq!(status.color, Color::Red);
    assert!(face.scrollbar);
    assert_eq!(panel.body_as_string(), vec!["raw bytes".to_string()]);
    open_path_field(&mut panel, true);
    type_text(&mut panel, "img");
    let save = panel.on_event(key(KeyCode::Enter)).unwrap().save.unwrap();
    assert_eq!(save.data, raw);
    let mut whole = b"HTTP/2.0 404\na: b\n\n\n".to_vec();
    whole.extend_from_slice(&raw);
    assert_eq!(panel.to_bytes().unwrap(), whole);
    assert_eq!(panel.response().as_ref().unwrap().to_bytes(), whole);
}

#[test]
fn scroll_stops_at_zero_and_at_the_top_of_the_range() {
    let mut panel = ResponsePanel::from(text_response("a\nb"));
    assert_eq!(panel.scroll(), 0);
    for _ in 0..3 {
        assert_eq!(panel.on_event(ch('k')).unwrap().handled, HandleSuccess::Consumed);
        assert_eq!(panel.scroll(), 0);
    }
    panel.on_event(key(KeyCode::Up)).unwrap();
    assert_eq!(panel.scroll(), 0);
    panel.on_event(ch('j')).unwrap();
    panel.on_event(key(KeyCode::Down)).unwrap();
    assert_eq!(panel.scroll(), 2);
    panel.on_event(ch('k')).unwrap();
    assert_eq!(panel.scroll(), 1);
    for _ in 0..70000 {
        panel.scroll_down();
    }
    assert_eq!(panel.scroll(), u16::MAX);
    panel.scroll_up();
    assert_eq!(panel.scroll(), u16::MAX - 1);
    assert_eq!(panel.on_event(ch('x')).unwrap().handled, HandleSuccess::Ignored);
}

#[test]
fn keys_that_the_path_field_ignores_reach_the_view() {
    let mut panel = ResponsePanel::from(text_response("a"));
    open_path_field(&mut panel, false);
    let step = panel.on_event(key(KeyCode::Down)).unwrap();
    assert_eq!(step.handled, HandleSuccess::Consumed);
    assert_eq!(panel.scroll(), 1);
    assert_eq!(panel.path().unwrap(), "");
    type_text(&mut panel, "js");
    assert_eq!(panel.path().unwrap(), "js");
    assert_eq!(panel.scroll(), 1);
    assert_eq!(panel.state(), PanelState::EnteringPath);
    assert_eq!(panel.path_cursor(10), Some(2));
    panel.on_event(key(KeyCode::Left)).unwrap();
    assert_eq!(panel.path_cursor(10), Some(1));
    type_text(&mut panel, "X");
    assert_eq!(panel.path().unwrap(), "jXs");
    type_text(&mut panel, "0123456789");
    assert_eq!(panel.path_cursor(4), Some(4));
    assert_eq!(ResponsePanel::new().path_cursor(4), None);
}

#[test]
fn cursor_column_leaves_out_what_is_scrolled() {
    assert_eq!(cursor_offset(0, 0), 0);
    assert_eq!(cursor_offset(12, 8), 4);
    assert_eq!(cursor_offset(3, 8), 0);
    assert_eq!(cursor_offset(65536 + 7, 0), 7);
}

#[test]
fn save_options_and_their_labels() {
    assert_eq!(SaveOption::iterator(), vec![SaveOption::All, SaveOption::Body]);
    assert_eq!(SaveOption::All.label(), "Save entire response");
    assert_eq!(SaveOption::Body.label(), "Save response body");
}

#[test]
fn second_request_waits_until_the_first_is_drained() {
    let file = parse("GET http://a\n\n###\nPOST http://b\n\n").unwrap();
    let mut app = App::new("two.http".to_string(), file);
    let mut queue = MessageQueue::new();
    assert_eq!(app.len(), 2);
    assert_eq!(app.title(), ">> two.http <<");
    app.on_key_event(key(KeyCode::Enter), &mut queue);
    app.on_key_event(key(KeyCode::Enter), &mut queue);
    assert_eq!((app.pending(), app.in_flight()), (1, None));
    app.on_key_event(key(KeyCode::Esc), &mut queue);
    assert_eq!(app.focus(), FocusState::RequestsList);
    app.on_key_event(ch('j'), &mut queue);
    assert_eq!(app.selected_index(), 1);
    app.on_key_event(key(KeyCode::Enter), &mut queue);
    assert!(app.on_key_event(key(KeyCode::Enter), &mut queue).is_none());
    assert_eq!((app.pending(), app.in_flight()), (2, None));
    let (request, index) = app.take_work().unwrap();
    assert_eq!((request.url.as_str(), index), ("http://a", 0));
    assert_eq!((app.pending(), app.in_flight()), (1, Some(0)));
    assert!(app.take_work().is_none());
    app.complete(Ok(text_response("first")), &mut queue);
    assert!(app.take_work().is_none());
    assert_eq!((app.pending(), app.in_flight()), (1, Some(0)));
    assert!(app.panel(0).response().is_none());
    app.update(&mut queue);
    assert!(app.in_flight().is_none());
    assert!(app.panel(1).response().is_none());
    assert_eq!(app.panel(0).body().unwrap(), b"first".to_vec());
    let (request, index) = app.take_work().unwrap();
    assert_eq!((request.url.as_str(), index), ("http://b", 1));
    assert_eq!((app.pending(), app.in_flight()), (0, Some(1)));
    app.complete(Ok(bytes_response(vec![1, 2])), &mut queue);
    app.update(&mut queue);
    assert_eq!(app.panel(1).body().unwrap(), vec![1, 2]);
    assert_eq!(app.panel(0).body().unwrap(), b"first".to_vec());
    assert!(app.take_work().is_none());
}

#[test]
fn requests_sent_in_a_row_go_out_in_that_order() {
    let file = parse("GET http://a\n\n###\nPOST http://b\n\n").unwrap();
    let mut app = App::new("two.http".to_string(), file);
    let mut queue = MessageQueue::new();
    app.on_key_event(key(KeyCode::Enter), &mut queue);
    for _ in 0..3 {
        app.on_key_event(key(KeyCode::Enter), &mut queue);
    }
    assert_eq!(app.pending(), 3);
    for left in [2, 1, 0] {
        let (request, index) = app.take_work().unwrap();
        assert_eq!((request.url.as_str(), index), ("http://a", 0));
        assert_eq!(app.pending(), left);
        app.complete(Err("down".to_string()), &mut queue);
        assert!(app.in_flight().is_none());
    }
    assert_eq!(queue.len(), 3);
    assert!(app.take_work().is_none());
}

#[test]
fn a_file_without_requests_makes_an_application_without_panels() {
    let mut app = App::new("none.http".to_string(), parse("").unwrap());
    let mut queue = MessageQueue::new();
    assert_eq!((app.len(), app.selected_index(), app.pending()), (0, 0, 0));
    assert_eq!(app.focus(), FocusState::RequestsList);
    assert!(!app.should_exit());
    assert!(app.message().is_none());
    assert!(app.in_flight().is_none());
    assert_eq!(app.title(), ">> none.http <<");
    assert!(app.take_work().is_none());
    MessageDialog::push_message(&mut queue, Message::Info("hello".to_string()));
    app.update(&mut queue);
    assert_eq!(app.message().unwrap().content(), &Message::Info("hello".to_string()));
    app.complete(Err("stray".to_string()), &mut queue);
    assert_eq!(queue.len(), 0);
}

#[test]
fn editing_keys_act_on_the_path_field() {
    let mut panel = ResponsePanel::from(text_response("ok"));
    open_path_field(&mut panel, false);
    assert_eq!(panel.on_event(key(KeyCode::Backspace)).unwrap().handled, HandleSuccess::Ignored);
    assert_eq!(panel.on_event(key(KeyCode::Left)).unwrap().handled, HandleSuccess::Ignored);
    assert_eq!(panel.on_event(key(KeyCode::Home)).unwrap().handled, HandleSuccess::Ignored);
    assert_eq!(panel.on_event(key(KeyCode::Delete)).unwrap().handled, HandleSuccess::Ignored);
    assert_eq!(panel.on_event(key(KeyCode::Right)).unwrap().handled, HandleSuccess::Ignored);
    assert_eq!(panel.on_event(key(KeyCode::End)).unwrap().handled, HandleSuccess::Ignored);
    type_text(&mut panel, "abcd");
    assert_eq!(panel.on_event(key(KeyCode::Backspace)).unwrap().handled, HandleSuccess::Consumed);
    assert_eq!(panel.path().unwrap(), "abc");
    assert_eq!(panel.on_event(key(KeyCode::Home)).unwrap().handled, HandleSuccess::Consumed);
    assert_eq!(panel.on_event(key(KeyCode::Delete)).unwrap().handled, HandleSuccess::Consumed);
    assert_eq!(panel.path().unwrap(), "bc");
    assert_eq!(panel.on_event(key(KeyCode::Right)).unwrap().handled, HandleSuccess::Consumed);
    type_text(&mut panel, "X");
    assert_eq!(panel.path().unwrap(), "bXc");
    assert_eq!(panel.on_event(key(KeyCode::Left)).unwrap().handled, HandleSuccess::Consumed);
    assert_eq!(panel.on_event(key(KeyCode::Backspace)).unwrap().handled, HandleSuccess::Consumed);
    assert_eq!(panel.path().unwrap(), "Xc");
    assert_eq!(panel.on_event(key(KeyCode::End)).unwrap().handled, HandleSuccess::Consumed);
    type_text(&mut panel, "Z");
    assert_eq!(panel.path().unwrap(), "XcZ");
    assert_eq!(panel.path_cursor(10), Some(3));
    assert_eq!(panel.on_event(Key::with(KeyCode::Char('Q'), SHIFT)).unwrap().handled, HandleSuccess::Consumed);
    assert_eq!(panel.path().unwrap(), "XcZQ");
}

#[test]
fn a_key_that_is_no_press_passes_the_path_field_by() {
    let mut panel = ResponsePanel::from(text_response("ok"));
    open_path_field(&mut panel, false);
    type_text(&mut panel, "a");
    let release = Key { code: KeyCode::Char('j'), modifiers: 0, kind: KeyKind::Release };
    let step = panel.on_event(release).unwrap();
    assert_eq!(step.handled, HandleSuccess::Consumed);
    assert_eq!(panel.path().unwrap(), "a");
    assert_eq!(panel.scroll(), 1);
    let repeat = Key { code: KeyCode::Backspace, modifiers: 0, kind: KeyKind::Repeat };
    assert_eq!(panel.on_event(repeat).unwrap().handled, HandleSuccess::Ignored);
    assert_eq!(panel.path().unwrap(), "a");
    let release = Key { code: KeyCode::Esc, modifiers: 0, kind: KeyKind::Release };
    assert_eq!(panel.on_event(release).unwrap().handled, HandleSuccess::Consumed);
    assert_eq!(panel.state(), PanelState::Viewing);
}

#[test]
fn transport_failure_becomes_a_message_and_leaves_the_panel() {
    let mut app = one_request_app();
    let mut queue = MessageQueue::new();
    app.on_key_event(key(KeyCode::Enter), &mut queue);
    app.on_key_event(key(KeyCode::Enter), &mut queue);
    app.take_work().unwrap();
    app.complete(Ok(text_response("kept")), &mut queue);
    app.update(&mut queue);
    app.on_key_event(ch('j'), &mut queue);
    assert_eq!(app.panel(0).scroll(), 1);
    app.on_key_event(key(KeyCode::Enter), &mut queue);
    app.take_work().unwrap();
    app.complete(Err("connection refused".to_string()), &mut queue);
    assert!(app.in_flight().is_none());
    assert_eq!(queue.len(), 1);
    app.update(&mut queue);
    assert_eq!(app.panel(0).body().unwrap(), b"kept".to_vec());
    assert_eq!(app.panel(0).scroll(), 1);
    let dialog = app.message().unwrap();
    assert_eq!(dialog.content(), &Message::Error("connection refused".to_string()));
    assert_eq!(dialog.render().title, " error ");
    assert_eq!(dialog.render().tone, Tone::Bad);
    app.complete(Err("stray".to_string()), &mut queue);
    assert_eq!(queue.len(), 0);
}

#[test]
fn failed_write_is_reported_and_the_field_stays_open() {
    let mut app = one_request_app();
    let mut queue = MessageQueue::new();
    app.on_key_event(key(KeyCode::Enter), &mut queue);
    app.on_key_event(ch('s'), &mut queue);
    app.on_key_event(key(KeyCode::Enter), &mut queue);
    app.on_key_event(ch('f'), &mut queue);
    assert!(app.on_key_event(key(KeyCode::Enter), &mut queue).is_none());
    assert_eq!(queue.pop().unwrap(), Message::Error("Request not sent".to_string()));
    app.save_finished(0, "f", Err("permission denied".to_string()), &mut queue);
    assert_eq!(queue.pop().unwrap(), Message::Error("permission denied".to_string()));
    assert_eq!(app.panel(0).state(), PanelState::EnteringPath);
    assert_eq!(app.panel(0).path().unwrap(), "f");
}

#[test]
fn quit_keys_end_the_program_from_either_half() {
    for quit in [ch('q'), ch('Q'), Key::with(KeyCode::Char('c'), CONTROL)] {
        let mut app = one_request_app();
        let mut queue = MessageQueue::new();
        assert!(!app.should_exit());
        app.on_key_event(quit, &mut queue);
        assert!(app.should_exit());
        let mut app = one_request_app();
        app.on_key_event(key(KeyCode::Enter), &mut queue);
        app.on_key_event(quit, &mut queue);
        assert!(app.should_exit());
    }
    let mut app = one_request_app();
    let mut queue = MessageQueue::new();
    app.on_key_event(ch('c'), &mut queue);
    app.on_key_event(key(KeyCode::Other), &mut queue);
    app.on_key_event(key(KeyCode::Esc), &mut queue);
    assert!(!app.should_exit());
    assert_eq!(app.focus(), FocusState::RequestsList);
}

#[test]
fn the_whole_screen_as_values() {
    let file = parse("GET http://a\nk: v\n\n###\nPOST http://b\n\nx\ny").unwrap();
    let mut app = App::new("two.http".to_string(), file);
    let mut queue = MessageQueue::new();
    app.on_key_event(ch('j'), &mut queue);
    app.on_key_event(key(KeyCode::Enter), &mut queue);
    MessageDialog::push_message(&mut queue, Message::Error("boom".to_string()));
    app.update(&mut queue);
    let face = app.draw(1);
    assert_eq!(face.title, ">> two.http <<");
    assert_eq!(face.focus, FocusState::ResponseBuffer);
    assert_eq!(face.selected, 1);
    assert_eq!(
        face.requests,
        vec![
            vec!["GET http://a HTTP/", "k: v", ""],
            vec!["POST http://b HTTP/", "", "x", "y", ""],
        ]
    );
    assert_eq!(face.panel.lines, vec!["<Empty>"]);
    assert!(!face.panel.scrollbar);
    assert_eq!(face.panel.scroll, 0);
    assert_eq!(face.panel.path, None);
    assert_eq!(face.panel.menu, None);
    let message = face.message.unwrap();
    assert_eq!((message.title.as_str(), message.tone, message.text.as_str()), (" error ", Tone::Bad, "boom"));
    app.on_key_event(ch('x'), &mut queue);
    assert!(app.draw(1).message.is_none());
}

#[test]
fn events_that_are_no_keys_change_nothing() {
    let mut app = one_request_app();
    let mut queue = MessageQueue::new();
    assert!(app.on_event(Event::Other, &mut queue).is_none());
    assert_eq!(app.focus(), FocusState::RequestsList);
    assert_eq!(queue.len(), 0);
    assert!(app.on_event(Event::Key(key(KeyCode::Enter)), &mut queue).is_none());
    assert_eq!(app.focus(), FocusState::ResponseBuffer);
    assert!(app.on_event(Event::Key(ch('Q')), &mut queue).is_none());
    assert!(app.should_exit());
}

#[test]
fn typing_q_into_the_path_field_does_not_quit() {
    let mut app = one_request_app();
    let mut queue = MessageQueue::new();
    app.on_key_event(key(KeyCode::Enter), &mut queue);
    app.on_key_event(ch('s'), &mut queue);
    app.on_key_event(key(KeyCode::Enter), &mut queue);
    app.on_key_event(ch('q'), &mut queue);
    assert!(!app.should_exit());
    assert_eq!(app.panel(0).path().unwrap(), "q");
}

#[test]
fn messages_are_shown_oldest_first_one_at_a_time() {
    let mut app = one_request_app();
    let mut queue = MessageQueue::new();
    MessageDialog::push_message(&mut queue, Message::Info("one".to_string()));
    MessageDialog::push_message(&mut queue, Message::Error("two".to_string()));
    assert_eq!(queue.len(), 2);
    app.update(&mut queue);
    assert_eq!(app.message().unwrap().content(), &Message::Info("one".to_string()));
    app.update(&mut queue);
    assert_eq!(app.message().unwrap().content(), &Message::Info("one".to_string()));
    assert_eq!(queue.len(), 1);
    app.on_key_event(key(KeyCode::Enter), &mut queue);
    assert!(app.message().is_none());
    assert_eq!(app.focus(), FocusState::RequestsList);
    app.update(&mut queue);
    assert_eq!(app.message().unwrap().content(), &Message::Error("two".to_string()));
    app.on_key_event(ch('j'), &mut queue);
    app.update(&mut queue);
    assert!(app.message().is_none());
    assert!(MessageDialog::pop_message(&mut queue).is_none());
    let mut dialog = {
        MessageDialog::push_message(&mut queue, Message::Info("x".to_string()));
        MessageDialog::pop_message(&mut queue).unwrap()
    };
    assert_eq!(dialog.on_event(ch('z')), HandleSuccess::Consumed);
    assert_eq!(dialog.clone().content(), &Message::Info("x".to_string()));
}

#[test]
fn control_chords_edit_the_path_field() {
    let mut panel = ResponsePanel::from(text_response("ok"));
    open_path_field(&mut panel, false);
    let control = |c: char| Key::with(KeyCode::Char(c), CONTROL);
    assert_eq!(panel.on_event(control('u')).unwrap().handled, HandleSuccess::Ignored);
    assert_eq!(panel.on_event(control('k')).unwrap().handled, HandleSuccess::Consumed);
    type_text(&mut panel, "abcdef");
    assert_eq!(panel.on_event(control('h')).unwrap().handled, HandleSuccess::Consumed);
    assert_eq!(panel.path().unwrap(), "abcde");
    assert_eq!(panel.on_event(control('a')).unwrap().handled, HandleSuccess::Consumed);
    assert_eq!(panel.on_event(control('a')).unwrap().handled, HandleSuccess::Ignored);
    assert_eq!(panel.on_event(control('f')).unwrap().handled, HandleSuccess::Consumed);
    assert_eq!(panel.on_event(control('f')).unwrap().handled, HandleSuccess::Consumed);
    assert_eq!(panel.on_event(control('b')).unwrap().handled, HandleSuccess::Consumed);
    type_text(&mut panel, "X");
    assert_eq!(panel.path().unwrap(), "aXbcde");
    assert_eq!(panel.on_event(control('e')).unwrap().handled, HandleSuccess::Consumed);
    assert_eq!(panel.on_event(control('e')).unwrap().handled, HandleSuccess::Ignored);
    type_text(&mut panel, "Y");
    assert_eq!(panel.path().unwrap(), "aXbcdeY");
    panel.on_event(control('a')).unwrap();
    panel.on_event(control('f')).unwrap();
    panel.on_event(control('f')).unwrap();
    assert_eq!(panel.on_event(control('k')).unwrap().handled, HandleSuccess::Consumed);
    assert_eq!(panel.path().unwrap(), "aX");
    assert_eq!(panel.path_cursor(10), Some(2));
    assert_eq!(panel.on_event(control('u')).unwrap().handled, HandleSuccess::Consumed);
    assert_eq!(panel.path().unwrap(), "");
    assert_eq!(panel.path_cursor(10), Some(0));
}

#[test]
fn keys_without_a_meaning_for_the_path_field_leave_it() {
    let mut panel = ResponsePanel::from(text_response("ok"));
    open_path_field(&mut panel, false);
    type_text(&mut panel, "ab");
    for other in [
        Key::with(KeyCode::Char('x'), ALT),
        Key::with(KeyCode::Backspace, SHIFT),
        Key::with(KeyCode::Home, CONTROL),
        Key::with(KeyCode::Char('h'), CONTROL | SHIFT),
        Key::with(KeyCode::Left, META),
    ] {
        assert_eq!(panel.on_event(other).unwrap().handled, HandleSuccess::Ignored);
        assert_eq!(panel.path().unwrap(), "ab");
        assert_eq!(panel.path_cursor(10), Some(2));
    }
    let mut app = one_request_app();
    let mut queue = MessageQueue::new();
    app.on_key_event(key(KeyCode::Enter), &mut queue);
    app.on_key_event(ch('s'), &mut queue);
    app.on_key_event(key(KeyCode::Enter), &mut queue);
    assert_eq!(app.panel(0).state(), PanelState::EnteringPath);
    app.on_key_event(Key::with(KeyCode::Char('c'), CONTROL), &mut queue);
    assert!(app.should_exit());
}
