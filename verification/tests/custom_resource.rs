use kube_crd::crds::accepts_kind;
use kube_crd::{Api, BuildError, CustomResource, PatchParams, PostParams, RawApi};

#[test]
fn raw_custom_resource() {
    struct Foo {}
    let r: RawApi<Foo> = CustomResource::new("Foo")
        .group("clux.dev")
        .version("v1")
        .within("myns")
        .build()
        .into();
    let pp = PostParams::default();
    let req = r.create(&pp, vec![]).unwrap();
    assert_eq!(req.uri(), "/apis/clux.dev/v1/namespaces/myns/foos");
    let patch_params = PatchParams::default();
    let req = r.patch("baz", &patch_params, vec![]).unwrap();
    assert_eq!(req.uri(), "/apis/clux.dev/v1/namespaces/myns/foos/baz");
    assert_eq!(req.method(), "PATCH");
}

#[test]
fn built_descriptor_holds_what_the_builder_was_given() {
    let cr = CustomResource::new("Foo")
        .group("clux.dev")
        .version("v1")
        .within("myns")
        .build();
    assert_eq!(cr.kind(), "Foo");
    assert_eq!(cr.group(), "clux.dev");
    assert_eq!(cr.version(), "v1");
    assert_eq!(cr.api_version(), "clux.dev/v1");
    assert_eq!(cr.namespace(), Some("myns"));
}

#[test]
fn api_version_joins_group_and_version() {
    let cr = CustomResource::new("Foo").group("clux.dev").version("v1").build();
    assert_eq!(cr.api_version(), "clux.dev/v1");
    let cr = CustomResource::new("Foo").version("v1beta1").group("example.com").build();
    assert_eq!(cr.api_version(), "example.com/v1beta1");
}

#[test]
fn api_version_of_the_core_group_is_the_version() {
    let cr = CustomResource::new("Pod").group("").version("v1").build();
    assert_eq!(cr.api_version(), "v1");
    assert_eq!(cr.group(), "");
}

#[test]
fn descriptor_without_namespace_is_cluster_scoped() {
    let cr = CustomResource::new("Foo").group("clux.dev").version("v1").build();
    assert_eq!(cr.namespace(), None);
}

#[test]
fn later_setter_calls_replace_earlier_ones() {
    let cr = CustomResource::new("Foo")
        .group("a.example")
        .version("v1")
        .within("one")
        .group("b.example")
        .version("v2")
        .within("two")
        .build();
    assert_eq!(cr.group(), "b.example");
    assert_eq!(cr.version(), "v2");
    assert_eq!(cr.api_version(), "b.example/v2");
    assert_eq!(cr.namespace(), Some("two"));
}

#[test]
fn try_build_without_version_fails() {
    let r = CustomResource::new("Foo").group("clux.dev").try_build();
    assert_eq!(r.err(), Some(BuildError::MissingVersion));
}

#[test]
fn try_build_without_group_fails() {
    let r = CustomResource::new("Foo").version("v1").try_build();
    assert_eq!(r.err(), Some(BuildError::MissingGroup));
}

#[test]
fn try_build_without_group_and_version_reports_the_version() {
    let r = CustomResource::new("Foo").try_build();
    assert_eq!(r.err(), Some(BuildError::MissingVersion));
    let r = CustomResource::new("Foo").within("myns").try_build();
    assert_eq!(r.err(), Some(BuildError::MissingVersion));
}

#[test]
fn try_build_with_group_and_version_succeeds() {
    let cr = CustomResource::new("Foo")
        .group("clux.dev")
        .version("v1")
        .try_build()
        .unwrap();
    assert_eq!(cr.api_version(), "clux.dev/v1");
    assert_eq!(cr.kind(), "Foo");
}

#[test]
fn try_new_accepts_singular_capitalized_kinds() {
    for kind in ["Foo", "Policy", "Box", "FooBar", "NetworkPolicy"] {
        let builder = CustomResource::try_new(kind);
        assert!(builder.is_some(), "{}", kind);
        let cr = builder.unwrap().group("g").version("v1").build();
        assert_eq!(cr.kind(), kind);
    }
}

#[test]
fn try_new_refuses_the_empty_kind() {
    assert!(CustomResource::try_new("").is_none());
}

#[test]
fn try_new_refuses_plural_kinds() {
    for kind in ["Foos", "Boxes", "Policies"] {
        assert!(CustomResource::try_new(kind).is_none(), "{}", kind);
    }
}

#[test]
fn try_new_refuses_kinds_that_are_not_capitalized_words() {
    for kind in ["foo", "fooBar", "foo_bar", "Foo Bar", "FOO_BAR", "foo-bar"] {
        assert!(CustomResource::try_new(kind).is_none(), "{}", kind);
    }
}

#[test]
fn accepts_kind_applies_the_three_conditions() {
    assert!(accepts_kind("Foo", "Foos", true));
    assert!(!accepts_kind("", "s", true));
    assert!(!accepts_kind("Foos", "Foos", true));
    assert!(!accepts_kind("Foo", "Foos", false));
}

#[test]
fn built_descriptor_is_not_affected_by_the_builder_afterwards() {
    let builder = CustomResource::new("Foo").group("clux.dev").version("v1");
    let cr = builder.clone().build();
    let changed = builder.group("other.dev").version("v2").within("elsewhere");
    assert_eq!(cr.group(), "clux.dev");
    assert_eq!(cr.version(), "v1");
    assert_eq!(cr.api_version(), "clux.dev/v1");
    assert_eq!(cr.namespace(), None);
    let other = changed.build();
    assert_eq!(other.api_version(), "other.dev/v2");
    assert_eq!(other.namespace(), Some("elsewhere"));
    assert_eq!(cr.api_version(), "clux.dev/v1");
    assert_eq!(cr.namespace(), None);
}

#[test]
fn cloned_descriptor_is_equal_in_every_field() {
    let cr = CustomResource::new("Foo")
        .group("clux.dev")
        .version("v1")
        .within("myns")
        .build();
    let copy = cr.clone();
    assert_eq!(copy.kind(), cr.kind());
    assert_eq!(copy.group(), cr.group());
    assert_eq!(copy.version(), cr.version());
    assert_eq!(copy.api_version(), cr.api_version());
    assert_eq!(copy.namespace(), cr.namespace());
}

#[test]
fn to_api_keeps_descriptor_and_client() {
    struct Foo {}
    let api: Api<Foo, &str> = CustomResource::new("Foo")
        .group("clux.dev")
        .version("v1")
        .within("myns")
        .build()
        .to_api("transport");
    assert_eq!(*api.client(), "transport");
    assert_eq!(api.raw().make_url(), "/apis/clux.dev/v1/namespaces/myns/foos");
    let (raw, client) = api.into_parts();
    assert_eq!(client, "transport");
    assert_eq!(raw.resource_name(), "foos");
}

#[test]
fn try_new_accepts_a_kind_whose_plural_is_the_same_word() {
    let cr = CustomResource::try_new("Sheep").unwrap().group("farm.dev").version("v1").build();
    let api: RawApi<()> = cr.into();
    assert_eq!(api.make_url(), "/apis/farm.dev/v1/sheep");
}

#[test]
fn convenient_custom_resource() {
    struct Foo {}
    struct Client {}
    let client = Client {};
    let _r: Api<Foo, Client> = CustomResource::new("Foo")
        .group("clux.dev")
        .version("v1")
        .within("myns")
        .build()
        .to_api(client);
}
