use pokeapi::api::v2::berry::{
    BerryFirmnessNamedResource, BerryFirmnessNamedResourceList, BerryFirmnessResource,
    BerryNamedResource, BerryNamedResourceList, BerryResource, BerryResourceList,
};
use pokeapi::api::v2::client::ApiClient;
use pokeapi::api::v2::resource::{
    ApiNamedResource, ApiNamedResourceList, ApiResource, ApiResourceList,
};
use pokeapi::error::ApiError;
use pokeapi::models::v2::resource::{NamedResource, NamedResourceList, Resource, ResourceList};

fn named(name: &str, url: &str) -> NamedResource {
    NamedResource { name: name.into(), url: url.into() }
}

fn first_berries() -> NamedResourceList {
    NamedResourceList {
        count: 64,
        next: Some("https://pokeapi.co/api/v2/berry?offset=5&limit=5".into()),
        previous: None,
        results: vec![
            named("cheri", "https://pokeapi.co/api/v2/berry/1/"),
            named("chesto", "https://pokeapi.co/api/v2/berry/2/"),
            named("pecha", "https://pokeapi.co/api/v2/berry/3/"),
            named("rawst", "https://pokeapi.co/api/v2/berry/4/"),
            named("aspear", "https://pokeapi.co/api/v2/berry/5/"),
        ],
    }
}

fn second_berries() -> NamedResourceList {
    NamedResourceList {
        count: 64,
        next: Some("https://pokeapi.co/api/v2/berry?offset=10&limit=5".into()),
        previous: Some("https://pokeapi.co/api/v2/berry?offset=0&limit=5".into()),
        results: vec![
            named("leppa", "https://pokeapi.co/api/v2/berry/6/"),
            named("oran", "https://pokeapi.co/api/v2/berry/7/"),
        ],
    }
}

fn firmnesses() -> NamedResourceList {
    NamedResourceList {
        count: 5,
        next: None,
        previous: None,
        results: vec![
            named("very-soft", "https://pokeapi.co/api/v2/berry-firmness/1/"),
            named("soft", "https://pokeapi.co/api/v2/berry-firmness/2/"),
            named("hard", "https://pokeapi.co/api/v2/berry-firmness/3/"),
            named("very-hard", "https://pokeapi.co/api/v2/berry-firmness/4/"),
            named("super-hard", "https://pokeapi.co/api/v2/berry-firmness/5/"),
        ],
    }
}

#[test]
fn resource_handle_points_to_its_locator() {
    let resource = Resource { url: "https://pokeapi.co/api/v2/berry/1".into() };
    let berry_resource = BerryResource::new(ApiClient::new(), resource);
    assert_eq!(berry_resource.url(), "https://pokeapi.co/api/v2/berry/1");
    assert_eq!(berry_resource.get().url, "https://pokeapi.co/api/v2/berry/1");
}

#[test]
fn resource_handle_asks_anew_each_time() {
    let resource = Resource { url: "https://pokeapi.co/api/v2/berry-firmness/1".into() };
    let handle = BerryFirmnessResource::new(ApiClient::new(), resource);
    assert_eq!(handle.get().url, "https://pokeapi.co/api/v2/berry-firmness/1");
    assert_eq!(handle.get().url, handle.get().url);
}

#[test]
fn named_resource_handle_keeps_name_and_locator() {
    let handle = BerryNamedResource::new(
        ApiClient::new(),
        named("cheri", "https://pokeapi.co/api/v2/berry/1"),
    );
    assert_eq!(handle.name(), "cheri");
    assert_eq!(handle.url(), "https://pokeapi.co/api/v2/berry/1");
    assert_eq!(handle.get().url, "https://pokeapi.co/api/v2/berry/1");
}

#[test]
fn firmness_named_resource_handle_keeps_name_and_locator() {
    let handle = BerryFirmnessNamedResource::new(
        ApiClient::new(),
        named("very-soft", "https://pokeapi.co/api/v2/berry-firmness/1"),
    );
    assert_eq!(handle.name(), "very-soft");
    assert_eq!(handle.get().url, "https://pokeapi.co/api/v2/berry-firmness/1");
}

#[test]
fn handles_from_equal_references_agree() {
    let client = ApiClient::new();
    let a = BerryNamedResource::new(client.clone(), named("pecha", "https://x.example/3"));
    let b = BerryNamedResource::new(client, named("pecha", "https://x.example/3"));
    assert_eq!(a.name(), b.name());
    assert_eq!(a.url(), b.url());
    assert_eq!(a.get().url, b.get().url);
    let c = a.clone();
    assert_eq!(c.name(), a.name());
    assert_eq!(c.get().url, a.get().url);
}

#[test]
fn named_list_first_page() {
    let resource_list = first_berries();
    let list = BerryNamedResourceList::new(ApiClient::new(), resource_list.clone());

    assert_eq!(list.count(), 64);

    assert!(list.previous_list().is_none());

    let next = list.next_list();
    assert!(next.is_some());
    assert_eq!(next.unwrap().url, "https://pokeapi.co/api/v2/berry?offset=5&limit=5");

    let resources = list.resources();
    assert_eq!(resources.len(), 5);
    for (idx, resource) in resources.iter().enumerate() {
        assert_eq!(resource.name(), resource_list.results[idx].name);
        assert_eq!(resource.url(), resource_list.results[idx].url);
        assert_eq!(resource.get().url, resource_list.results[idx].url);
    }
    assert_eq!(resources[0].name(), "cheri");
    assert_eq!(resources[4].url(), "https://pokeapi.co/api/v2/berry/5/");
}

#[test]
fn named_list_only_page() {
    let resource_list = firmnesses();
    let list = BerryFirmnessNamedResourceList::new(ApiClient::new(), resource_list.clone());

    assert_eq!(list.count(), 5);
    assert!(list.previous_list().is_none());
    assert!(list.next_list().is_none());

    let resources = list.resources();
    assert_eq!(resources.len(), resource_list.results.len());
    for (idx, resource) in resources.iter().enumerate() {
        assert_eq!(resource.name(), resource_list.results[idx].name);
        assert_eq!(resource.url(), resource_list.results[idx].url);
    }
    assert_eq!(resources[4].name(), "super-hard");
}

#[test]
fn named_list_middle_page_links_both_ways() {
    let list = BerryNamedResourceList::new(ApiClient::new(), second_berries());
    assert_eq!(
        list.next_list().unwrap().url,
        "https://pokeapi.co/api/v2/berry?offset=10&limit=5"
    );
    assert_eq!(
        list.previous_list().unwrap().url,
        "https://pokeapi.co/api/v2/berry?offset=0&limit=5"
    );
}

#[test]
fn named_list_count_is_not_the_page_size() {
    let list = BerryNamedResourceList::new(ApiClient::new(), second_berries());
    assert_eq!(list.count(), 64);
    assert_eq!(list.resources().len(), 2);
}

#[test]
fn named_list_empty_page() {
    let page = NamedResourceList { count: 64, next: None, previous: None, results: vec![] };
    let list = BerryNamedResourceList::new(ApiClient::new(), page);
    assert_eq!(list.count(), 64);
    assert!(list.resources().is_empty());
}

#[test]
fn named_list_without_request_has_no_neighbour() {
    let list = BerryFirmnessNamedResourceList::new(ApiClient::new(), firmnesses());
    let neighbour = list.adjacent_list(None);
    assert!(neighbour.is_ok());
    assert!(neighbour.unwrap().is_none());
}

#[test]
fn named_list_walks_to_the_page_that_came() {
    let list = BerryNamedResourceList::new(ApiClient::new(), first_berries());
    assert!(list.next_list().is_some());
    let neighbour = list.adjacent_list(Some(Ok(second_berries())));
    assert!(neighbour.is_ok());
    let neighbour = neighbour.unwrap();
    assert!(neighbour.is_some());
    let neighbour = neighbour.unwrap();
    assert_eq!(neighbour.count(), 64);
    assert_eq!(neighbour.count(), list.count());
    let resources = neighbour.resources();
    assert_eq!(resources.len(), 2);
    assert_eq!(resources[0].name(), "leppa");
    assert_eq!(resources[1].url(), "https://pokeapi.co/api/v2/berry/7/");
    assert_eq!(
        neighbour.previous_list().unwrap().url,
        "https://pokeapi.co/api/v2/berry?offset=0&limit=5"
    );
    assert_eq!(list.resources()[0].name(), "cheri");
}

#[test]
fn named_list_hands_a_failure_on() {
    let list = BerryNamedResourceList::new(ApiClient::new(), first_berries());
    let failed = list.adjacent_list(Some(Err(ApiError::Transport("timed out".into()))));
    assert!(matches!(failed, Err(ApiError::Transport(ref d)) if d == "timed out"));
    let failed = list.adjacent_list(Some(Err(ApiError::Decode("no count".into()))));
    assert!(matches!(failed, Err(ApiError::Decode(ref d)) if d == "no count"));
    let failed = list.adjacent_list(Some(Err(ApiError::Unknown)));
    assert!(matches!(failed, Err(ApiError::Unknown)));
}

#[test]
fn unnamed_list_page() {
    let page = ResourceList {
        count: 3,
        next: None,
        previous: Some("https://pokeapi.co/api/v2/thing?offset=0&limit=2".into()),
        results: vec![Resource { url: "https://pokeapi.co/api/v2/thing/3/".into() }],
    };
    let list = BerryResourceList::new(ApiClient::new(), page.clone());
    assert_eq!(list.count(), 3);
    assert!(list.next_list().is_none());
    assert_eq!(
        list.previous_list().unwrap().url,
        "https://pokeapi.co/api/v2/thing?offset=0&limit=2"
    );
    let resources = list.resources();
    assert_eq!(resources.len(), 1);
    assert_eq!(resources[0].url(), page.results[0].url);
    assert_eq!(resources[0].get().url, "https://pokeapi.co/api/v2/thing/3/");
}

#[test]
fn unnamed_list_neighbours() {
    let page = ResourceList { count: 3, next: None, previous: None, results: vec![] };
    let list = BerryResourceList::new(ApiClient::new(), page);
    assert!(list.adjacent_list(None).unwrap().is_none());
    let came = ResourceList {
        count: 3,
        next: None,
        previous: None,
        results: vec![
            Resource { url: "https://pokeapi.co/api/v2/thing/1/".into() },
            Resource { url: "https://pokeapi.co/api/v2/thing/2/".into() },
        ],
    };
    let neighbour = list.adjacent_list(Some(Ok(came))).unwrap().unwrap();
    assert_eq!(neighbour.count(), 3);
    assert_eq!(neighbour.resources().len(), 2);
    assert_eq!(neighbour.resources()[1].url(), "https://pokeapi.co/api/v2/thing/2/");
    let failed = list.adjacent_list(Some(Err(ApiError::Decode("bad".into()))));
    assert!(matches!(failed, Err(ApiError::Decode(ref d)) if d == "bad"));
}

#[test]
fn model_clone_keeps_every_field() {
    let page = first_berries();
    let copy = page.clone();
    assert_eq!(copy.count, page.count);
    assert_eq!(copy.next, page.next);
    assert_eq!(copy.previous, page.previous);
    assert_eq!(copy.results.len(), page.results.len());
    for (a, b) in copy.results.iter().zip(page.results.iter()) {
        assert_eq!(a.name, b.name);
        assert_eq!(a.url, b.url);
    }
    let r = Resource { url: "u".into() };
    assert_eq!(r.clone().url, "u");
}
