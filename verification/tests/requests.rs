use kube_crd::params::write_query;
use kube_crd::raw::route;
use kube_crd::{
    CustomResource, FieldValidation, ListParams, Method, PatchParams, PatchStrategy, PostParams,
    RawApi, RequestError, RequestSpec,
};

struct Foo;

fn cluster_foos() -> RawApi<Foo> {
    CustomResource::new("Foo").group("clux.dev").version("v1").build().into()
}

fn namespaced_foos() -> RawApi<Foo> {
    CustomResource::new("Foo")
        .group("clux.dev")
        .version("v1")
        .within("myns")
        .build()
        .into()
}

fn core_pods() -> RawApi<Foo> {
    CustomResource::new("Pod")
        .group("")
        .version("v1")
        .within("default")
        .build()
        .into()
}

#[test]
fn create_on_cluster_scoped_resource() {
    let req = cluster_foos().create(&PostParams::default(), vec![1, 2, 3]).unwrap();
    assert_eq!(req.path(), "/apis/clux.dev/v1/foos");
    assert_eq!(req.method(), "POST");
    assert_eq!(req.http_method(), Method::Post);
    assert_eq!(req.query(), "");
    assert_eq!(req.body(), &Some(vec![1, 2, 3]));
    assert_eq!(req.content_type(), None);
}

#[test]
fn create_on_namespaced_resource() {
    let req = namespaced_foos().create(&PostParams::default(), vec![]).unwrap();
    assert_eq!(req.path(), "/apis/clux.dev/v1/namespaces/myns/foos");
    assert_eq!(req.method(), "POST");
}

#[test]
fn patch_on_namespaced_resource() {
    let req = namespaced_foos()
        .patch("baz", &PatchParams::default(), b"{\"spec\":{}}".to_vec())
        .unwrap();
    assert_eq!(req.path(), "/apis/clux.dev/v1/namespaces/myns/foos/baz");
    assert_eq!(req.method(), "PATCH");
    assert_eq!(req.http_method(), Method::Patch);
    assert_eq!(req.query(), "");
    assert_eq!(req.body(), &Some(b"{\"spec\":{}}".to_vec()));
    assert_eq!(req.content_type(), Some("application/strategic-merge-patch+json"));
}

#[test]
fn patch_announces_the_strategy_the_caller_chose() {
    let api = namespaced_foos();
    let mut pp = PatchParams::default();
    pp.patch_strategy = PatchStrategy::Merge;
    let req = api.patch("baz", &pp, vec![]).unwrap();
    assert_eq!(req.content_type(), Some("application/merge-patch+json"));
    pp.patch_strategy = PatchStrategy::Json;
    let req = api.patch("baz", &pp, vec![]).unwrap();
    assert_eq!(req.content_type(), Some("application/json-patch+json"));
    assert_eq!(req.query(), "");
}

#[test]
fn patch_body_is_passed_through_unchanged() {
    let payload: Vec<u8> = vec![0, 255, 10, 13, 63, 38, 61, 37];
    let req = cluster_foos()
        .patch("baz", &PatchParams::default(), payload.clone())
        .unwrap();
    assert_eq!(req.body(), &Some(payload));
}

#[test]
fn core_group_is_served_under_api() {
    let req = core_pods().list(&ListParams::default()).unwrap();
    assert_eq!(req.path(), "/api/v1/namespaces/default/pods");
    assert_eq!(req.uri(), "/api/v1/namespaces/default/pods");
    let cluster: RawApi<Foo> = CustomResource::new("Node").group("").version("v1").build().into();
    assert_eq!(cluster.make_url(), "/api/v1/nodes");
}

#[test]
fn get_addresses_the_object() {
    let req = namespaced_foos().get("baz").unwrap();
    assert_eq!(req.method(), "GET");
    assert_eq!(req.path(), "/apis/clux.dev/v1/namespaces/myns/foos/baz");
    assert_eq!(req.query(), "");
    assert_eq!(req.uri(), "/apis/clux.dev/v1/namespaces/myns/foos/baz");
    assert_eq!(req.body(), &None);
    assert_eq!(req.content_type(), None);
}

#[test]
fn list_addresses_the_collection() {
    let req = cluster_foos().list(&ListParams::default()).unwrap();
    assert_eq!(req.method(), "GET");
    assert_eq!(req.path(), "/apis/clux.dev/v1/foos");
    assert_eq!(req.query(), "");
    assert_eq!(req.body(), &None);
}

#[test]
fn watch_addresses_the_collection_and_asks_for_a_watch() {
    let req = namespaced_foos().watch(&ListParams::default()).unwrap();
    assert_eq!(req.method(), "GET");
    assert_eq!(req.path(), "/apis/clux.dev/v1/namespaces/myns/foos");
    assert_eq!(req.query(), "watch=true");
    assert_eq!(req.uri(), "/apis/clux.dev/v1/namespaces/myns/foos?watch=true");
    assert_eq!(req.body(), &None);
}

#[test]
fn watch_item_addresses_the_object() {
    let mut lp = ListParams::default();
    lp.resource_version = Some("42".to_string());
    lp.timeout = Some(10);
    let req = namespaced_foos().watch_item("baz", &lp).unwrap();
    assert_eq!(req.method(), "GET");
    assert_eq!(req.path(), "/apis/clux.dev/v1/namespaces/myns/foos/baz");
    assert_eq!(req.query(), "watch=true&resourceVersion=42&timeoutSeconds=10");
}

#[test]
fn delete_addresses_the_object_without_a_body() {
    let req = namespaced_foos().delete("baz").unwrap();
    assert_eq!(req.method(), "DELETE");
    assert_eq!(req.http_method(), Method::Delete);
    assert_eq!(req.path(), "/apis/clux.dev/v1/namespaces/myns/foos/baz");
    assert_eq!(req.query(), "");
    assert_eq!(req.body(), &None);
}

#[test]
fn replace_puts_the_object() {
    let mut pp = PostParams::default();
    pp.dry_run = true;
    let req = cluster_foos().replace("baz", &pp, vec![7]).unwrap();
    assert_eq!(req.method(), "PUT");
    assert_eq!(req.http_method(), Method::Put);
    assert_eq!(req.path(), "/apis/clux.dev/v1/foos/baz");
    assert_eq!(req.query(), "dryRun=All");
    assert_eq!(req.uri(), "/apis/clux.dev/v1/foos/baz?dryRun=All");
    assert_eq!(req.body(), &Some(vec![7]));
    assert_eq!(req.content_type(), None);
}

#[test]
fn verbs_on_one_object_need_a_name() {
    let api = namespaced_foos();
    assert_eq!(api.get("").err(), Some(RequestError::MissingName));
    assert_eq!(api.delete("").err(), Some(RequestError::MissingName));
    assert_eq!(
        api.patch("", &PatchParams::default(), vec![]).err(),
        Some(RequestError::MissingName)
    );
    assert_eq!(
        api.replace("", &PostParams::default(), vec![]).err(),
        Some(RequestError::MissingName)
    );
    assert_eq!(
        api.watch_item("", &ListParams::default()).err(),
        Some(RequestError::MissingName)
    );
}

#[test]
fn names_are_not_validated_beyond_being_present() {
    let req = namespaced_foos().get("not a legal/name").unwrap();
    assert_eq!(req.path(), "/apis/clux.dev/v1/namespaces/myns/foos/not a legal/name");
}

#[test]
fn missing_name_has_a_message() {
    assert_eq!(
        RequestError::MissingName.message(),
        "a verb that addresses one object needs the object's name"
    );
}

#[test]
fn no_options_give_an_empty_query() {
    assert_eq!(PostParams::default().query(), "");
    assert_eq!(PatchParams::default().query(), "");
    assert_eq!(ListParams::default().query(), "");
    assert_eq!(ListParams::default().watch_query(), "watch=true");
}

#[test]
fn queries_have_no_stray_separators() {
    let mut pp = PostParams::default();
    let mut seen = Vec::new();
    seen.push(pp.query());
    pp.field_manager = Some(String::new());
    seen.push(pp.query());
    pp.dry_run = true;
    seen.push(pp.query());
    pp.field_manager = None;
    pp.field_validation = Some(FieldValidation::Warn);
    seen.push(pp.query());
    pp.dry_run = false;
    seen.push(pp.query());
    assert_eq!(
        seen,
        vec![
            "",
            "fieldManager=",
            "dryRun=All&fieldManager=",
            "dryRun=All&fieldValidation=Warn",
            "fieldValidation=Warn",
        ]
    );
    for q in seen {
        assert!(!q.starts_with('&'));
        assert!(!q.ends_with('&'));
        assert!(!q.contains("&&"));
        assert!(!q.contains('?'));
    }
}

#[test]
fn post_options_in_order() {
    let pp = PostParams {
        dry_run: true,
        field_manager: Some("my manager".to_string()),
        field_validation: Some(FieldValidation::Strict),
    };
    assert_eq!(pp.query(), "dryRun=All&fieldManager=my+manager&fieldValidation=Strict");
    let req = cluster_foos().create(&pp, vec![]).unwrap();
    assert_eq!(
        req.uri(),
        "/apis/clux.dev/v1/foos?dryRun=All&fieldManager=my+manager&fieldValidation=Strict"
    );
}

#[test]
fn patch_options_in_order() {
    let pp = PatchParams {
        dry_run: true,
        field_manager: Some("ctl&co".to_string()),
        field_validation: Some(FieldValidation::Ignore),
        patch_strategy: PatchStrategy::Merge,
    };
    assert_eq!(pp.query(), "dryRun=All&fieldManager=ctl%26co&fieldValidation=Ignore");
    let only_manager = PatchParams {
        dry_run: false,
        field_manager: Some("ctl".to_string()),
        field_validation: None,
        patch_strategy: PatchStrategy::Merge,
    };
    assert_eq!(only_manager.query(), "fieldManager=ctl");
}

#[test]
fn list_options_in_order() {
    let lp = ListParams {
        label_selector: Some("app=web,tier in (a, b)".to_string()),
        field_selector: Some("metadata.name=foo".to_string()),
        resource_version: Some("12345".to_string()),
        timeout: Some(30),
        limit: Some(500),
        continue_token: Some("abc/def==".to_string()),
    };
    let expected = "labelSelector=app%3Dweb%2Ctier+in+%28a%2C+b%29\
                    &fieldSelector=metadata.name%3Dfoo\
                    &resourceVersion=12345\
                    &timeoutSeconds=30\
                    &limit=500\
                    &continue=abc%2Fdef%3D%3D";
    assert_eq!(lp.query(), expected);
    assert_eq!(lp.watch_query(), format!("watch=true&{}", expected));
    let req = namespaced_foos().list(&lp).unwrap();
    assert_eq!(req.query(), expected);
}

#[test]
fn list_options_one_at_a_time() {
    let mut lp = ListParams::default();
    lp.limit = Some(0);
    assert_eq!(lp.query(), "limit=0");
    lp.limit = None;
    lp.timeout = Some(4294967295);
    assert_eq!(lp.query(), "timeoutSeconds=4294967295");
    lp.timeout = None;
    lp.continue_token = Some("next".to_string());
    assert_eq!(lp.query(), "continue=next");
    lp.continue_token = None;
    lp.label_selector = Some("a".to_string());
    lp.field_selector = Some("b".to_string());
    assert_eq!(lp.query(), "labelSelector=a&fieldSelector=b");
}

#[test]
fn cloned_params_give_the_same_query() {
    let lp = ListParams {
        label_selector: Some("app=web".to_string()),
        field_selector: None,
        resource_version: None,
        timeout: Some(5),
        limit: None,
        continue_token: None,
    };
    assert_eq!(lp.clone().query(), lp.query());
    let pp = PostParams {
        dry_run: true,
        field_manager: Some("m".to_string()),
        field_validation: None,
    };
    assert_eq!(pp.clone().query(), pp.query());
    let pt = PatchParams {
        dry_run: true,
        field_manager: None,
        field_validation: Some(FieldValidation::Strict),
        patch_strategy: PatchStrategy::Json,
    };
    assert_eq!(pt.clone().query(), pt.query());
    assert_eq!(pt.clone().patch_strategy, PatchStrategy::Json);
}

#[test]
fn method_names() {
    assert_eq!(Method::Get.as_str(), "GET");
    assert_eq!(Method::Post.as_str(), "POST");
    assert_eq!(Method::Put.as_str(), "PUT");
    assert_eq!(Method::Patch.as_str(), "PATCH");
    assert_eq!(Method::Delete.as_str(), "DELETE");
}

#[test]
fn directive_and_strategy_names() {
    assert_eq!(FieldValidation::Ignore.as_str(), "Ignore");
    assert_eq!(FieldValidation::Warn.as_str(), "Warn");
    assert_eq!(FieldValidation::Strict.as_str(), "Strict");
    assert_eq!(PatchStrategy::Json.as_str(), "application/json-patch+json");
    assert_eq!(PatchStrategy::Merge.as_str(), "application/merge-patch+json");
    assert_eq!(PatchStrategy::Strategic.as_str(), "application/strategic-merge-patch+json");
}

#[test]
fn request_from_parts() {
    let req = RequestSpec::new(
        Method::Put,
        "/api/v1/nodes/n1".to_string(),
        "dryRun=All".to_string(),
        None,
        Some(vec![1]),
    );
    assert_eq!(req.method(), "PUT");
    assert_eq!(req.path(), "/api/v1/nodes/n1");
    assert_eq!(req.query(), "dryRun=All");
    assert_eq!(req.uri(), "/api/v1/nodes/n1?dryRun=All");
    assert_eq!(req.body(), &Some(vec![1]));
    assert_eq!(req.content_type(), None);
}

#[test]
fn route_assembles_the_segments() {
    assert_eq!(route("clux.dev", "clux.dev/v1", None, "foos"), "/apis/clux.dev/v1/foos");
    assert_eq!(
        route("clux.dev", "clux.dev/v1", Some("myns"), "foos"),
        "/apis/clux.dev/v1/namespaces/myns/foos"
    );
    assert_eq!(route("", "v1", Some("default"), "pods"), "/api/v1/namespaces/default/pods");
    assert_eq!(route("", "v1", None, "nodes"), "/api/v1/nodes");
}

#[test]
fn url_for_places_the_resource_name_last() {
    assert_eq!(
        namespaced_foos().url_for("widgets"),
        "/apis/clux.dev/v1/namespaces/myns/widgets"
    );
    assert_eq!(cluster_foos().url_for(""), "/apis/clux.dev/v1/");
}

#[test]
fn target_without_options_is_the_path_for_every_verb() {
    let api = namespaced_foos();
    let base = "/apis/clux.dev/v1/namespaces/myns/foos";
    let item = "/apis/clux.dev/v1/namespaces/myns/foos/baz";
    let targets = vec![
        (api.create(&PostParams::default(), vec![]).unwrap().uri(), base),
        (api.list(&ListParams::default()).unwrap().uri(), base),
        (api.get("baz").unwrap().uri(), item),
        (api.delete("baz").unwrap().uri(), item),
        (api.patch("baz", &PatchParams::default(), vec![]).unwrap().uri(), item),
        (api.replace("baz", &PostParams::default(), vec![]).unwrap().uri(), item),
    ];
    for (target, expected) in targets {
        assert_eq!(target, expected);
        assert!(!target.ends_with('?'));
        assert!(!target.contains('?'));
    }
}

#[test]
fn target_with_options_has_one_mark_before_the_query() {
    let api = namespaced_foos();
    let mut pp = PatchParams::default();
    pp.dry_run = true;
    pp.field_manager = Some("ctl".to_string());
    let target = api.patch("baz", &pp, vec![]).unwrap().uri();
    assert_eq!(
        target,
        "/apis/clux.dev/v1/namespaces/myns/foos/baz?dryRun=All&fieldManager=ctl"
    );
    assert!(!target.ends_with('?'));
    assert!(!target.ends_with('&'));
    assert!(!target.contains("?&"));
    assert!(!target.contains("&&"));
    let target = api.watch_item("baz", &ListParams::default()).unwrap().uri();
    assert_eq!(target, "/apis/clux.dev/v1/namespaces/myns/foos/baz?watch=true");
}

#[test]
fn request_from_parts_without_query_has_the_path_as_target() {
    let req = RequestSpec::new(Method::Get, "/api/v1/nodes".to_string(), String::new(), None, None);
    assert_eq!(req.uri(), "/api/v1/nodes");
    assert_eq!(req.query(), "");
}

#[test]
fn raw_api_keeps_the_api_version() {
    assert_eq!(namespaced_foos().api_version(), "clux.dev/v1");
    assert_eq!(core_pods().api_version(), "v1");
}

#[test]
fn write_options_in_order() {
    assert_eq!(write_query(false, &None, &None), "");
    assert_eq!(write_query(true, &None, &None), "dryRun=All");
    assert_eq!(
        write_query(true, &Some("a b".to_string()), &Some(FieldValidation::Warn)),
        "dryRun=All&fieldManager=a+b&fieldValidation=Warn"
    );
    assert_eq!(
        write_query(false, &None, &Some(FieldValidation::Strict)),
        "fieldValidation=Strict"
    );
}
