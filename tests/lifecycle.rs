use relm4::{on_activate, AppSource, RelmApp, Step, WindowOp};

#[test]
fn new_keeps_application_id() {
    let app = RelmApp::new("org.example.Counter");
    match app.app {
        AppSource::Id(id) => assert_eq!(id, "org.example.Counter"),
        AppSource::Existing => panic!("expected an identifier"),
    }
}

#[test]
fn new_with_empty_id() {
    let app = RelmApp::new("");
    assert!(matches!(app.app, AppSource::Id(ref id) if id.is_empty()));
}

#[test]
fn with_app_uses_existing_application() {
    let app = RelmApp::with_app();
    assert!(matches!(app.app, AppSource::Existing));
}

#[test]
fn run_launches_then_connects_then_loops_without_args() {
    let steps = RelmApp::new("org.example.App").run(42u32);
    assert_eq!(steps.len(), 3);
    assert!(matches!(steps[0], Step::Launch(42)));
    assert!(matches!(steps[1], Step::ConnectActivate));
    match &steps[2] {
        Step::RunLoop(args) => assert!(args.is_empty()),
        _ => panic!("the last step must enter the event loop"),
    }
}

#[test]
fn run_with_args_passes_arguments_verbatim() {
    let args = ["app", "--gapplication-service", "", "ünïcode arg"];
    let steps = RelmApp::with_app().run_with_args(String::from("init"), &args);
    assert_eq!(steps.len(), 3);
    match &steps[0] {
        Step::Launch(p) => assert_eq!(p, "init"),
        _ => panic!("the first step must launch the component"),
    }
    assert!(matches!(steps[1], Step::ConnectActivate));
    match &steps[2] {
        Step::RunLoop(a) => {
            assert_eq!(a.len(), 4);
            assert_eq!(a[0], "app");
            assert_eq!(a[1], "--gapplication-service");
            assert_eq!(a[2], "");
            assert_eq!(a[3], "ünïcode arg");
        }
        _ => panic!("the last step must enter the event loop"),
    }
}

#[test]
fn run_with_args_keeps_duplicates_and_order() {
    let args = ["b", "a", "b"];
    let steps = RelmApp::new("org.example.App").run_with_args((), &args);
    match &steps[2] {
        Step::RunLoop(a) => assert_eq!(a, &vec!["b".to_string(), "a".to_string(), "b".to_string()]),
        _ => panic!("the last step must enter the event loop"),
    }
}

#[test]
fn run_launches_exactly_once() {
    let steps = RelmApp::new("org.example.App").run(vec![1u8, 2, 3]);
    let launches: Vec<&Vec<u8>> = steps
        .iter()
        .filter_map(|s| match s {
            Step::Launch(p) => Some(p),
            _ => None,
        })
        .collect();
    assert_eq!(launches, vec![&vec![1u8, 2, 3]]);
}

#[test]
fn activation_adds_then_shows_window() {
    assert_eq!(on_activate(), vec![WindowOp::AddToApp, WindowOp::Show]);
}

#[test]
fn activation_is_the_same_every_time() {
    assert_eq!(on_activate(), on_activate());
}
