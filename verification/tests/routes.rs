use shader_shell::routes::MainRoute;
use shader_shell::routes::str_eq;

#[test]
fn paths_of_routes() {
    assert_eq!(MainRoute::Home.to_path(), "/");
    assert_eq!(MainRoute::About.to_path(), "/about");
    assert_eq!(MainRoute::Contact.to_path(), "/contact");
    assert_eq!(MainRoute::NotFound.to_path(), "/404");
}

#[test]
fn recognize_known_paths() {
    assert_eq!(MainRoute::recognize("/"), MainRoute::Home);
    assert_eq!(MainRoute::recognize("/about"), MainRoute::About);
    assert_eq!(MainRoute::recognize("/contact"), MainRoute::Contact);
    assert_eq!(MainRoute::recognize("/404"), MainRoute::NotFound);
}

#[test]
fn recognize_unknown_paths() {
    assert_eq!(MainRoute::recognize(""), MainRoute::NotFound);
    assert_eq!(MainRoute::recognize("/abou"), MainRoute::NotFound);
    assert_eq!(MainRoute::recognize("/about/"), MainRoute::NotFound);
    assert_eq!(MainRoute::recognize("/contact-us"), MainRoute::NotFound);
}

#[test]
fn round_trip_through_path() {
    let routes = vec![
        MainRoute::Home,
        MainRoute::About,
        MainRoute::Contact,
        MainRoute::NotFound,
    ];
    for route in routes {
        let path = route.to_path();
        assert_eq!(MainRoute::recognize(path.as_str()), route);
    }
}

#[test]
fn str_eq_cases() {
    assert!(str_eq("", ""));
    assert!(str_eq("/about", "/about"));
    assert!(!str_eq("/about", "/abou"));
    assert!(!str_eq("/abou", "/about"));
    assert!(!str_eq("/about", "/abouT"));
    assert!(str_eq("caf\u{e9}", "caf\u{e9}"));
    assert!(!str_eq("caf\u{e9}", "cafe"));
}
