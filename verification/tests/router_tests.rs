use verifier_backend::router::RoutePath;

#[test]
fn test_routes() {
    assert_eq!(RoutePath::Root.as_ref(), "/");
    assert_eq!(RoutePath::from_str("/").unwrap(), RoutePath::Root);
}

#[test]
fn test_every_path_round_trips() {
    let paths = [
        RoutePath::Root,
        RoutePath::Status,
        RoutePath::ManualChecks,
        RoutePath::Init,
        RoutePath::ContextDataset,
        RoutePath::PeriodDataset,
        RoutePath::Extract,
        RoutePath::Run,
        RoutePath::Reset,
    ];
    for p in paths {
        assert_eq!(RoutePath::from_str(p.as_ref()).unwrap(), p);
    }
    assert_eq!(RoutePath::Status.as_ref(), "/status");
    assert_eq!(RoutePath::ManualChecks.as_ref(), "/manual-checks");
    assert_eq!(RoutePath::Init.as_ref(), "/init");
    assert_eq!(RoutePath::ContextDataset.as_ref(), "/context-dataset");
    assert_eq!(RoutePath::PeriodDataset.as_ref(), "/period-dataset");
    assert_eq!(RoutePath::Extract.as_ref(), "/extract");
    assert_eq!(RoutePath::Run.as_ref(), "/run");
    assert_eq!(RoutePath::Reset.as_ref(), "/reset");
}

#[test]
fn test_unknown_path_is_rejected() {
    assert!(RoutePath::from_str("/nope").is_err());
    assert!(RoutePath::from_str("").is_err());
    assert!(RoutePath::from_str("/statu").is_err());
    assert!(RoutePath::from_str("/status/").is_err());
}
