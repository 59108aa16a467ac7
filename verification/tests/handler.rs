use browser_relay::handler::{
    greeting, index_reply, navigation_error_reply, session_error_reply, source_error_reply,
    step, success_reply, Event, Flow,
};

#[test]
fn greeting_is_the_fixed_text() {
    assert_eq!(greeting(), "Nyari apa bg?");
}

#[test]
fn index_reply_is_200_with_the_greeting() {
    let r = index_reply();
    assert_eq!(r.status, 200);
    assert_eq!(r.body, "Nyari apa bg?");
}

#[test]
fn session_error_reply_names_the_phase() {
    let r = session_error_reply("connection refused");
    assert_eq!(r.status, 500);
    assert_eq!(r.body, "WebDriver error: connection refused");
}

#[test]
fn navigation_error_reply_names_the_phase() {
    let r = navigation_error_reply("Cannot navigate to invalid URL");
    assert_eq!(r.status, 500);
    assert!(r.body.starts_with("Navigation error"));
    assert_eq!(r.body, "Navigation error: Cannot navigate to invalid URL");
}

#[test]
fn source_error_reply_names_the_phase() {
    let r = source_error_reply("no such window");
    assert_eq!(r.status, 500);
    assert_eq!(r.body, "Source error: no such window");
}

#[test]
fn success_reply_returns_the_markup_verbatim() {
    let r = success_reply(String::from("<html><body>hi</body></html>"));
    assert_eq!(r.status, 200);
    assert_eq!(r.body, "<html><body>hi</body></html>");
}

#[test]
fn flow_advances_through_the_phases_on_success() {
    let f = step(Flow::NeedSession, Event::SessionOk);
    assert!(matches!(f, Flow::NeedNavigate));
    let f = step(f, Event::NavigateOk);
    assert!(matches!(f, Flow::NeedSource));
    let f = step(f, Event::SourceOk(String::from("<html></html>")));
    match f {
        Flow::NeedReset(ref kept) => assert_eq!(kept, "<html></html>"),
        _ => panic!("expected the reset phase"),
    }
    let f = step(f, Event::ResetFinished(true));
    match f {
        Flow::Done(rep) => {
            assert_eq!(rep.status, 200);
            assert_eq!(rep.body, "<html></html>");
        }
        _ => panic!("expected a finished request"),
    }
}

#[test]
fn session_failure_aborts_with_a_webdriver_error() {
    let f = step(Flow::NeedSession, Event::SessionFailed(String::from("no endpoint")));
    match f {
        Flow::Done(rep) => {
            assert_eq!(rep.status, 500);
            assert_eq!(rep.body, "WebDriver error: no endpoint");
        }
        _ => panic!("expected a finished request"),
    }
}

#[test]
fn navigation_failure_aborts_with_a_navigation_error() {
    let f = step(
        Flow::NeedNavigate,
        Event::NavigateFailed(String::from("Cannot navigate to invalid URL")),
    );
    match f {
        Flow::Done(rep) => {
            assert_eq!(rep.status, 500);
            assert!(rep.body.contains("Navigation error"));
            assert_eq!(rep.body, "Navigation error: Cannot navigate to invalid URL");
        }
        _ => panic!("expected a finished request"),
    }
}

#[test]
fn source_failure_aborts_with_a_source_error() {
    let f = step(Flow::NeedSource, Event::SourceFailed(String::from("timed out")));
    match f {
        Flow::Done(rep) => {
            assert_eq!(rep.status, 500);
            assert_eq!(rep.body, "Source error: timed out");
        }
        _ => panic!("expected a finished request"),
    }
}

#[test]
fn failed_reset_does_not_spoil_the_answer() {
    let f = step(Flow::NeedSource, Event::SourceOk(String::from("<html>kept</html>")));
    let f = step(f, Event::ResetFinished(false));
    match f {
        Flow::Done(rep) => {
            assert_eq!(rep.status, 200);
            assert_eq!(rep.body, "<html>kept</html>");
        }
        _ => panic!("expected a finished request"),
    }
}
