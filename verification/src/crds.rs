//! Resource descriptors and the builder that assembles them.
//!
//! A descriptor names a resource type by kind, API group and version, and
//! optionally confines it to one namespace. It is assembled by a builder that
//! is created from the kind and then given the group and the version.

use std::marker::PhantomData;
use vstd::prelude::*;
use vstd::string::*;

use crate::raw::RawApi;
use crate::text::{pascal_cased, plural_form, same_text};
use crate::typed::Api;
use inflector::cases::pascalcase::is_pascal_case;
use inflector::string::pluralize::to_plural;

verus! {

/// The identity of a resource type: the mathematical content of a descriptor.
pub struct ResourceId {
    pub kind: Seq<char>,
    pub group: Seq<char>,
    pub version: Seq<char>,
    pub namespace: Option<Seq<char>>,
}

/// The `apiVersion` of a group and a version: the version alone for the core
/// group, whose name is empty, and `group/version` for every other group.
pub open spec fn api_version_of(group: Seq<char>, version: Seq<char>) -> Seq<char> {
    if group.len() == 0 {
        version
    } else {
        group + "/"@ + version
    }
}

impl ResourceId {
    /// The `apiVersion` of this identity.
    pub open spec fn api_version(self) -> Seq<char> {
        api_version_of(self.group, self.version)
    }
}

/// The rule by which a kind is accepted, given its plural and whether it is
/// written in capitalized-word style: it is not empty, it differs from its
/// plural, and it is capitalized.
pub open spec fn kind_accepted(kind: Seq<char>, plural: Seq<char>, capitalized: bool) -> bool {
    kind.len() > 0 && plural != kind && capitalized
}

/// A kind that may name a resource type: a non-empty singular word in
/// capitalized-word style.
pub open spec fn valid_kind(kind: Seq<char>) -> bool {
    kind_accepted(kind, plural_form(kind), pascal_cased(kind))
}

/// What a builder holds: the kind it was created with and the fields set so
/// far.
pub struct BuilderState {
    pub kind: Seq<char>,
    pub version: Option<Seq<char>>,
    pub group: Option<Seq<char>>,
    pub namespace: Option<Seq<char>>,
}

impl BuilderState {
    /// The state of a fresh builder for `kind`.
    pub open spec fn start(kind: Seq<char>) -> Self {
        BuilderState { kind, version: None, group: None, namespace: None }
    }

    /// This state with the group set.
    pub open spec fn with_group(self, group: Seq<char>) -> Self {
        BuilderState { group: Some(group), ..self }
    }

    /// This state with the version set.
    pub open spec fn with_version(self, version: Seq<char>) -> Self {
        BuilderState { version: Some(version), ..self }
    }

    /// This state with the namespace set.
    pub open spec fn with_namespace(self, namespace: Seq<char>) -> Self {
        BuilderState { namespace: Some(namespace), ..self }
    }

    /// Whether a descriptor can be built: both group and version are set.
    pub open spec fn is_complete(self) -> bool {
        self.group is Some && self.version is Some
    }

    /// The identity that a complete state describes.
    pub open spec fn identity(self) -> ResourceId
        recommends
            self.is_complete(),
    {
        ResourceId {
            kind: self.kind,
            group: self.group->0,
            version: self.version->0,
            namespace: self.namespace,
        }
    }
}

/// Why a descriptor could not be built.
#[derive(Clone, Copy, Debug, PartialEq, Eq, Structural)]
pub enum BuildError {
    /// No version was given to the builder.
    MissingVersion,
    /// No group was given to the builder.
    MissingGroup,
}

/// The outcome of building from a state: the identity if the state is
/// complete; otherwise the first missing field, the version before the group.
pub open spec fn build_outcome(state: BuilderState) -> Result<ResourceId, BuildError> {
    if state.version is None {
        Err(BuildError::MissingVersion)
    } else if state.group is None {
        Err(BuildError::MissingGroup)
    } else {
        Ok(state.identity())
    }
}

/// The mathematical content of the outcome of a build.
pub open spec fn built_view(r: Result<CustomResource, BuildError>) -> Result<
    ResourceId,
    BuildError,
> {
    match r {
        Ok(built) => Ok(built@),
        Err(e) => Err(e),
    }
}

/// A validated description of a resource type.
///
/// Every descriptor holds a valid kind, and its `apiVersion` is the one that
/// its group and version determine. A descriptor never changes once built.
pub struct CustomResource {
    kind: String,
    group: String,
    version: String,
    api_version: String,
    namespace: Option<String>,
}

/// A builder for [`CustomResource`]. It always holds a valid kind.
pub struct CrBuilder {
    kind: String,
    version: Option<String>,
    group: Option<String>,
    namespace: Option<String>,
}

impl View for CustomResource {
    type V = ResourceId;

    closed spec fn view(&self) -> ResourceId {
        ResourceId {
            kind: self.kind@,
            group: self.group@,
            version: self.version@,
            namespace: self.namespace.deep_view(),
        }
    }
}

impl View for CrBuilder {
    type V = BuilderState;

    closed spec fn view(&self) -> BuilderState {
        BuilderState {
            kind: self.kind@,
            version: self.version.deep_view(),
            group: self.group.deep_view(),
            namespace: self.namespace.deep_view(),
        }
    }
}

impl Clone for CrBuilder {
    /// A second builder in the same state. What is done to one of the two
    /// afterwards does not reach the other, nor anything built from it.
    fn clone(&self) -> (copy: Self)
        ensures
            copy@ == self@,
    {
        proof {
            use_type_invariant(self);
        }
        CrBuilder {
            kind: self.kind.clone(),
            version: self.version.clone(),
            group: self.group.clone(),
            namespace: self.namespace.clone(),
        }
    }
}

impl Clone for CustomResource {
    fn clone(&self) -> (copy: Self)
        ensures
            copy@ == self@,
    {
        proof {
            use_type_invariant(self);
        }
        CustomResource {
            kind: self.kind.clone(),
            group: self.group.clone(),
            version: self.version.clone(),
            api_version: self.api_version.clone(),
            namespace: self.namespace.clone(),
        }
    }
}

/// Decides whether `kind` may name a resource type, given its plural and
/// whether it is written in capitalized-word style.
pub fn accepts_kind(kind: &str, plural: &str, capitalized: bool) -> (ok: bool)
    ensures
        ok == kind_accepted(kind@, plural@, capitalized),
{
    !kind.is_empty() && !same_text(plural, kind) && capitalized
}

/// Joins a group and a version into an `apiVersion`.
pub fn compose_api_version(group: &str, version: &str) -> (r: String)
    ensures
        r@ == api_version_of(group@, version@),
{
    if group.is_empty() {
        String::from_str(version)
    } else {
        let mut joined = String::from_str(group);
        joined.append("/");
        joined.append(version);
        joined
    }
}

impl CustomResource {
    #[verifier::type_invariant]
    spec fn well_formed(&self) -> bool {
        &&& valid_kind(self.kind@)
        &&& self.api_version@ == api_version_of(self.group@, self.version@)
    }

    /// Starts a builder for the resource type called `kind`, a singular word
    /// in capitalized-word style.
    pub fn new(kind: &str) -> (builder: CrBuilder)
        requires
            valid_kind(kind@),
        ensures
            builder@ == BuilderState::start(kind@),
    {
        CrBuilder::new(kind)
    }

    /// Starts a builder for `kind` if `kind` is valid, and refuses it
    /// otherwise.
    pub fn try_new(kind: &str) -> (r: Option<CrBuilder>)
        ensures
            r is Some <==> valid_kind(kind@),
            r matches Some(builder) ==> builder@ == BuilderState::start(kind@),
    {
        let plural = to_plural(kind);
        let capitalized = is_pascal_case(kind);
        if accepts_kind(kind, plural.as_str(), capitalized) {
            Some(CustomResource::new(kind))
        } else {
            None
        }
    }

    /// Binds the descriptor to a transport handle and to the type `K` of the
    /// objects it describes.
    pub fn to_api<K, C>(self, client: C) -> (api: Api<K, C>)
        ensures
            api@ == (self@, client),
    {
        Api::new(RawApi::from(self), client)
    }

    /// The kind: a valid one, as of every descriptor.
    pub fn kind(&self) -> (r: &str)
        ensures
            r@ == self@.kind,
            valid_kind(r@),
    {
        proof {
            use_type_invariant(self);
        }
        self.kind.as_str()
    }

    /// The API group; empty for the core group.
    pub fn group(&self) -> (r: &str)
        ensures
            r@ == self@.group,
    {
        self.group.as_str()
    }

    /// The API version.
    pub fn version(&self) -> (r: &str)
        ensures
            r@ == self@.version,
    {
        self.version.as_str()
    }

    /// The `apiVersion` that group and version determine.
    pub fn api_version(&self) -> (r: &str)
        ensures
            r@ == self@.api_version(),
    {
        proof {
            use_type_invariant(self);
        }
        self.api_version.as_str()
    }

    /// The namespace, if the descriptor is confined to one.
    pub fn namespace(&self) -> (r: Option<&str>)
        ensures
            r.deep_view() == self@.namespace,
    {
        match &self.namespace {
            Some(ns) => Some(ns.as_str()),
            None => None,
        }
    }
}

impl<K> From<CustomResource> for RawApi<K> {
    /// The same identity, bound to the type `K`.
    fn from(c: CustomResource) -> (api: Self)
        ensures
            api@ == c@,
    {
        proof {
            use_type_invariant(&c);
        }
        RawApi::from_parts(c.kind, c.group, c.version, c.api_version, c.namespace)
    }
}

impl<K> vstd::std_specs::convert::FromSpecImpl<CustomResource> for RawApi<K> {
    open spec fn obeys_from_spec() -> bool {
        true
    }

    closed spec fn from_spec(c: CustomResource) -> Self {
        RawApi {
            api_version: c.api_version,
            kind: c.kind,
            group: c.group,
            version: c.version,
            namespace: c.namespace,
            phantom: PhantomData,
        }
    }
}

impl CrBuilder {
    #[verifier::type_invariant]
    spec fn well_formed(&self) -> bool {
        valid_kind(self.kind@)
    }

    /// A fresh builder for `kind`.
    fn new(kind: &str) -> (builder: Self)
        requires
            valid_kind(kind@),
        ensures
            builder@ == BuilderState::start(kind@),
    {
        CrBuilder { kind: String::from_str(kind), version: None, group: None, namespace: None }
    }

    /// Sets the API group. The empty group is the core group.
    pub fn group(self, group: &str) -> (builder: Self)
        ensures
            builder@ == self@.with_group(group@),
    {
        proof {
            use_type_invariant(&self);
        }
        CrBuilder {
            kind: self.kind,
            version: self.version,
            group: Some(String::from_str(group)),
            namespace: self.namespace,
        }
    }

    /// Sets the API version.
    pub fn version(self, version: &str) -> (builder: Self)
        ensures
            builder@ == self@.with_version(version@),
    {
        proof {
            use_type_invariant(&self);
        }
        CrBuilder {
            kind: self.kind,
            version: Some(String::from_str(version)),
            group: self.group,
            namespace: self.namespace,
        }
    }

    /// Confines the resource to the namespace `ns`.
    pub fn within(self, ns: &str) -> (builder: Self)
        ensures
            builder@ == self@.with_namespace(ns@),
    {
        proof {
            use_type_invariant(&self);
        }
        CrBuilder {
            kind: self.kind,
            version: self.version,
            group: self.group,
            namespace: Some(String::from_str(ns)),
        }
    }

    /// Builds the descriptor if the builder has its group and version, and
    /// says which of them is missing otherwise.
    pub fn try_build(self) -> (r: Result<CustomResource, BuildError>)
        ensures
            r is Ok <==> self@.is_complete(),
            built_view(r) == build_outcome(self@),
    {
        if self.version.is_none() {
            Err(BuildError::MissingVersion)
        } else if self.group.is_none() {
            Err(BuildError::MissingGroup)
        } else {
            Ok(self.build())
        }
    }

    /// Builds the descriptor from a builder that has its group and version.
    pub fn build(self) -> (built: CustomResource)
        requires
            self@.is_complete(),
        ensures
            built@ == self@.identity(),
            valid_kind(built@.kind),
    {
        proof {
            use_type_invariant(&self);
        }
        let version = self.version.unwrap();
        let group = self.group.unwrap();
        CustomResource {
            api_version: compose_api_version(group.as_str(), version.as_str()),
            kind: self.kind,
            version,
            group,
            namespace: self.namespace,
        }
    }
}

/// One call of a setter of the builder.
pub enum Setter {
    Group(Seq<char>),
    Version(Seq<char>),
    Within(Seq<char>),
}

impl BuilderState {
    /// This state after one call of a setter.
    pub open spec fn apply(self, setter: Setter) -> Self {
        match setter {
            Setter::Group(group) => self.with_group(group),
            Setter::Version(version) => self.with_version(version),
            Setter::Within(namespace) => self.with_namespace(namespace),
        }
    }

    /// This state after the calls of `setters`, in their order.
    pub open spec fn apply_all(self, setters: Seq<Setter>) -> Self
        decreases setters.len(),
    {
        if setters.len() == 0 {
            self
        } else {
            self.apply_all(setters.drop_last()).apply(setters.last())
        }
    }
}

/// Whether one of the calls sets the group.
pub open spec fn sets_group(setters: Seq<Setter>) -> bool {
    exists|i: int| 0 <= i < setters.len() && #[trigger] setters[i] is Group
}

/// Whether one of the calls sets the version.
pub open spec fn sets_version(setters: Seq<Setter>) -> bool {
    exists|i: int| 0 <= i < setters.len() && #[trigger] setters[i] is Version
}

/// A builder for a valid kind that is given a group and then a version can
/// be built, and the `apiVersion` of what is built is the version alone for
/// the empty group and `group/version` otherwise.
pub proof fn lemma_build_after_group_and_version(
    kind: Seq<char>,
    group: Seq<char>,
    version: Seq<char>,
)
    requires
        valid_kind(kind),
    ensures
        ({
            let state = BuilderState::start(kind).with_group(group).with_version(version);
            &&& state.is_complete()
            &&& build_outcome(state) == Ok::<ResourceId, BuildError>(state.identity())
            &&& state.identity().kind == kind
            &&& state.identity().group == group
            &&& state.identity().version == version
            &&& state.identity().namespace is None
            &&& state.identity().api_version() == if group.len() == 0 {
                version
            } else {
                group + "/"@ + version
            }
        }),
{
}

/// Whatever setters a fresh builder is given, in whatever order: it has a
/// group exactly if one of the calls set the group, and a version exactly if
/// one of them set the version. So building succeeds exactly after both, and
/// fails without a call of either.
pub proof fn lemma_complete_iff_group_and_version_set(kind: Seq<char>, setters: Seq<Setter>)
    ensures
        ({
            let state = BuilderState::start(kind).apply_all(setters);
            &&& state.kind == kind
            &&& state.group is Some <==> sets_group(setters)
            &&& state.version is Some <==> sets_version(setters)
            &&& build_outcome(state) is Ok <==> sets_group(setters) && sets_version(setters)
            &&& !sets_version(setters) ==> build_outcome(state) == Err::<ResourceId, BuildError>(
                BuildError::MissingVersion,
            )
            &&& sets_version(setters) && !sets_group(setters) ==> build_outcome(state) == Err::<
                ResourceId,
                BuildError,
            >(BuildError::MissingGroup)
        }),
    decreases setters.len(),
{
    if setters.len() > 0 {
        let front = setters.drop_last();
        let last = setters.last();
        lemma_complete_iff_group_and_version_set(kind, front);
        assert(setters[setters.len() - 1] == last);
        if sets_group(front) {
            let i = choose|i: int| 0 <= i < front.len() && #[trigger] front[i] is Group;
            assert(setters[i] is Group);
        }
        if sets_version(front) {
            let i = choose|i: int| 0 <= i < front.len() && #[trigger] front[i] is Version;
            assert(setters[i] is Version);
        }
        if sets_group(setters) && !(last is Group) {
            let i = choose|i: int| 0 <= i < setters.len() && #[trigger] setters[i] is Group;
            assert(front[i] is Group);
        }
        if sets_version(setters) && !(last is Version) {
            let i = choose|i: int| 0 <= i < setters.len() && #[trigger] setters[i] is Version;
            assert(front[i] is Version);
        }
    }
}

} // verus!
