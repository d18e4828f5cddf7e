use receipten::route::{match_route, route_path};
use receipten::{AppRoute, Model, Msg};

fn id_of(route: Option<AppRoute>) -> Option<String> {
    route.map(|AppRoute::FetchServiceExample { id }| id)
}

#[test]
fn item_path_yields_param() {
    assert_eq!(id_of(match_route("/item/42")), Some("42".to_string()));
    assert_eq!(id_of(match_route("/#/item/42")), Some("42".to_string()));
    assert_eq!(id_of(match_route("/item/abc-1")), Some("abc-1".to_string()));
}

#[test]
fn unknown_path_yields_none() {
    assert_eq!(id_of(match_route("/unknown")), None);
    assert_eq!(id_of(match_route("")), None);
    assert_eq!(id_of(match_route("/item/")), None);
    assert_eq!(id_of(match_route("/item")), None);
    assert_eq!(id_of(match_route("/item/4/2")), None);
    assert_eq!(id_of(match_route("/items/42")), None);
    assert_eq!(id_of(match_route("/#/unknown")), None);
}

#[test]
fn route_path_round_trips() {
    let route = AppRoute::FetchServiceExample { id: "42".to_string() };
    let path = route_path(&route);
    assert_eq!(path, "/#/item/42");
    assert_eq!(match_route(&path), Some(route));
}

#[test]
fn model_follows_location() {
    let mut model = Model::create("/unknown".to_string());
    assert_eq!(model.view(), None);
    assert!(model.update(Msg::RouteChanged("/item/9".to_string())));
    assert_eq!(id_of(model.view()), Some("9".to_string()));
    let target = AppRoute::FetchServiceExample { id: "abc".to_string() };
    assert!(model.update(Msg::ChangeRoute(target.clone())));
    assert_eq!(model.route, "/#/item/abc");
    assert_eq!(model.view(), Some(target));
}
