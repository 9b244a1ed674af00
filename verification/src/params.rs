//! The options that the verbs accept, and the query pairs they stand for.
//!
//! Every option is optional. One that is absent contributes no pair, so a
//! value with no option set gives the empty query.

use vstd::prelude::*;
use vstd::string::*;

use crate::query::{
    append_pair, decimal, decimal_string, lemma_query_empty_iff_no_pairs,
    lemma_query_well_separated, query_of, well_separated, QueryPairs,
};

verus! {

/// How the server treats unknown or duplicated fields of a submitted object.
#[derive(Clone, Copy, Debug, PartialEq, Eq, Structural)]
pub enum FieldValidation {
    /// Drop them silently.
    Ignore,
    /// Accept the object and answer with a warning.
    Warn,
    /// Refuse the object.
    Strict,
}

impl FieldValidation {
    /// The word that the server knows this directive by.
    pub open spec fn name(self) -> Seq<char> {
        match self {
            FieldValidation::Ignore => "Ignore"@,
            FieldValidation::Warn => "Warn"@,
            FieldValidation::Strict => "Strict"@,
        }
    }

    /// The word that the server knows this directive by.
    pub fn as_str(&self) -> (r: &'static str)
        ensures
            r@ == self.name(),
    {
        match self {
            FieldValidation::Ignore => "Ignore",
            FieldValidation::Warn => "Warn",
            FieldValidation::Strict => "Strict",
        }
    }
}

/// How the server is to read the body of a patch. The caller chooses; nothing
/// is inferred from the body.
#[derive(Clone, Copy, Debug, PartialEq, Eq, Structural)]
pub enum PatchStrategy {
    /// A list of JSON-patch operations.
    Json,
    /// A JSON merge patch.
    Merge,
    /// A strategic merge patch.
    Strategic,
}

impl PatchStrategy {
    /// The content type that announces this strategy.
    pub open spec fn content_type(self) -> Seq<char> {
        match self {
            PatchStrategy::Json => "application/json-patch+json"@,
            PatchStrategy::Merge => "application/merge-patch+json"@,
            PatchStrategy::Strategic => "application/strategic-merge-patch+json"@,
        }
    }

    /// The content type that announces this strategy.
    pub fn as_str(&self) -> (r: &'static str)
        ensures
            r@ == self.content_type(),
    {
        match self {
            PatchStrategy::Json => "application/json-patch+json",
            PatchStrategy::Merge => "application/merge-patch+json",
            PatchStrategy::Strategic => "application/strategic-merge-patch+json",
        }
    }
}

/// The pair `key=value` if the flag is set, and no pair otherwise.
pub open spec fn flag_pair(key: Seq<char>, value: Seq<char>, set: bool) -> QueryPairs {
    if set {
        seq![(key, value)]
    } else {
        Seq::empty()
    }
}

/// The pair of a key and a text if the text is present, and no pair otherwise.
pub open spec fn text_pair(key: Seq<char>, value: Option<Seq<char>>) -> QueryPairs {
    match value {
        Some(text) => seq![(key, text)],
        None => Seq::empty(),
    }
}

/// The pair of a key and the decimal numeral of a number if the number is
/// present, and no pair otherwise.
pub open spec fn number_pair(key: Seq<char>, value: Option<u32>) -> QueryPairs {
    match value {
        Some(n) => seq![(key, decimal(n as nat))],
        None => Seq::empty(),
    }
}

/// The pair of the field-validation directive if one is present.
pub open spec fn validation_pair(value: Option<FieldValidation>) -> QueryPairs {
    match value {
        Some(directive) => seq![("fieldValidation"@, directive.name())],
        None => Seq::empty(),
    }
}

/// The query pairs of the options that every verb that submits something
/// accepts, in the order in which they are sent: the dry run, the field
/// manager, the field validation.
pub open spec fn write_pairs(
    dry_run: bool,
    field_manager: Option<Seq<char>>,
    field_validation: Option<FieldValidation>,
) -> QueryPairs {
    flag_pair("dryRun"@, "All"@, dry_run) + text_pair("fieldManager"@, field_manager)
        + validation_pair(field_validation)
}

/// Options of the verbs that submit a whole object: create and replace.
#[derive(Debug)]
pub struct PostParams {
    /// Ask the server to go through the motions without persisting anything.
    pub dry_run: bool,
    /// The name under which the changed fields are recorded.
    pub field_manager: Option<String>,
    /// How unknown or duplicated fields are treated.
    pub field_validation: Option<FieldValidation>,
}

/// The mathematical content of [`PostParams`].
pub struct PostOptions {
    pub dry_run: bool,
    pub field_manager: Option<Seq<char>>,
    pub field_validation: Option<FieldValidation>,
}

impl PostOptions {
    /// No option set.
    pub open spec fn none() -> Self {
        PostOptions { dry_run: false, field_manager: None, field_validation: None }
    }

    /// The query pairs of these options, in the order in which they are sent.
    pub open spec fn pairs(self) -> QueryPairs {
        write_pairs(self.dry_run, self.field_manager, self.field_validation)
    }
}

impl View for PostParams {
    type V = PostOptions;

    open spec fn view(&self) -> PostOptions {
        PostOptions {
            dry_run: self.dry_run,
            field_manager: self.field_manager.deep_view(),
            field_validation: self.field_validation,
        }
    }
}

impl Clone for PostParams {
    fn clone(&self) -> (copy: Self)
        ensures
            copy@ == self@,
    {
        PostParams {
            dry_run: self.dry_run,
            field_manager: self.field_manager.clone(),
            field_validation: self.field_validation,
        }
    }
}

impl Default for PostParams {
    fn default() -> (r: Self)
        ensures
            r@ == PostOptions::none(),
    {
        PostParams { dry_run: false, field_manager: None, field_validation: None }
    }
}

/// Appends the field-validation pair, if there is one.
fn append_validation(
    query: &mut String,
    value: &Option<FieldValidation>,
    Ghost(pairs): Ghost<QueryPairs>,
)
    requires
        old(query)@ == query_of(pairs),
    ensures
        final(query)@ == query_of(pairs + validation_pair(*value)),
{
    match value {
        Some(directive) => {
            append_pair(query, "fieldValidation", directive.as_str(), Ghost(pairs));
            assert(pairs.push(("fieldValidation"@, directive.name())) =~= pairs + validation_pair(
                *value,
            ));
        },
        None => {
        },
    }
}

/// Appends the pair of a key and a text, if the text is present.
fn append_text(
    query: &mut String,
    key: &str,
    value: &Option<String>,
    Ghost(pairs): Ghost<QueryPairs>,
)
    requires
        old(query)@ == query_of(pairs),
    ensures
        final(query)@ == query_of(pairs + text_pair(key@, value.deep_view())),
{
    match value {
        Some(text) => {
            append_pair(query, key, text.as_str(), Ghost(pairs));
            assert(pairs.push((key@, text@)) =~= pairs + text_pair(key@, value.deep_view()));
        },
        None => {
        },
    }
}

/// Appends the pair of a key and a number, if the number is present.
fn append_number(
    query: &mut String,
    key: &str,
    value: Option<u32>,
    Ghost(pairs): Ghost<QueryPairs>,
)
    requires
        old(query)@ == query_of(pairs),
    ensures
        final(query)@ == query_of(pairs + number_pair(key@, value)),
{
    match value {
        Some(n) => {
            let numeral = decimal_string(n);
            append_pair(query, key, numeral.as_str(), Ghost(pairs));
            assert(pairs.push((key@, decimal(n as nat))) =~= pairs + number_pair(key@, value));
        },
        None => {
        },
    }
}

/// Appends the pair `key=value` if the flag is set.
fn append_flag(
    query: &mut String,
    key: &str,
    value: &str,
    set: bool,
    Ghost(pairs): Ghost<QueryPairs>,
)
    requires
        old(query)@ == query_of(pairs),
    ensures
        final(query)@ == query_of(pairs + flag_pair(key@, value@, set)),
{
    if set {
        append_pair(query, key, value, Ghost(pairs));
        assert(pairs.push((key@, value@)) =~= pairs + flag_pair(key@, value@, set));
    } else {
    }
}

/// The query string of the options that every verb that submits something
/// accepts: empty if none is set, and never with a stray separator.
pub fn write_query(
    dry_run: bool,
    field_manager: &Option<String>,
    field_validation: &Option<FieldValidation>,
) -> (q: String)
    ensures
        q@ == query_of(write_pairs(dry_run, field_manager.deep_view(), *field_validation)),
        q@.len() == 0 <==> write_pairs(
            dry_run,
            field_manager.deep_view(),
            *field_validation,
        ).len() == 0,
        well_separated(q@),
{
    let mut q = String::new();
    let ghost none = QueryPairs::empty();
    let ghost first = none + flag_pair("dryRun"@, "All"@, dry_run);
    let ghost second = first + text_pair("fieldManager"@, field_manager.deep_view());
    let ghost all = write_pairs(dry_run, field_manager.deep_view(), *field_validation);
    append_flag(&mut q, "dryRun", "All", dry_run, Ghost(none));
    append_text(&mut q, "fieldManager", field_manager, Ghost(first));
    append_validation(&mut q, field_validation, Ghost(second));
    proof {
        assert(second + validation_pair(*field_validation) =~= all);
        lemma_query_empty_iff_no_pairs(all);
        lemma_query_well_separated(all);
    }
    q
}

impl PostParams {
    /// The query string of these options: empty if none is set, and never
    /// with a stray separator.
    pub fn query(&self) -> (q: String)
        ensures
            q@ == query_of(self@.pairs()),
            q@.len() == 0 <==> self@.pairs().len() == 0,
            well_separated(q@),
    {
        write_query(self.dry_run, &self.field_manager, &self.field_validation)
    }
}

/// Options of the patch verb.
#[derive(Debug)]
pub struct PatchParams {
    /// Ask the server to go through the motions without persisting anything.
    pub dry_run: bool,
    /// The name under which the changed fields are recorded.
    pub field_manager: Option<String>,
    /// How unknown or duplicated fields are treated.
    pub field_validation: Option<FieldValidation>,
    /// How the server is to read the body.
    pub patch_strategy: PatchStrategy,
}

/// The mathematical content of [`PatchParams`].
pub struct PatchOptions {
    pub dry_run: bool,
    pub field_manager: Option<Seq<char>>,
    pub field_validation: Option<FieldValidation>,
    pub patch_strategy: PatchStrategy,
}

impl PatchOptions {
    /// No option set, for a patch of the given strategy.
    pub open spec fn none(patch_strategy: PatchStrategy) -> Self {
        PatchOptions { dry_run: false, field_manager: None, field_validation: None, patch_strategy }
    }

    /// The query pairs of these options, in the order in which they are sent.
    /// The strategy is no part of the query.
    pub open spec fn pairs(self) -> QueryPairs {
        write_pairs(self.dry_run, self.field_manager, self.field_validation)
    }
}

impl View for PatchParams {
    type V = PatchOptions;

    open spec fn view(&self) -> PatchOptions {
        PatchOptions {
            dry_run: self.dry_run,
            field_manager: self.field_manager.deep_view(),
            field_validation: self.field_validation,
            patch_strategy: self.patch_strategy,
        }
    }
}

impl Clone for PatchParams {
    fn clone(&self) -> (copy: Self)
        ensures
            copy@ == self@,
    {
        PatchParams {
            dry_run: self.dry_run,
            field_manager: self.field_manager.clone(),
            field_validation: self.field_validation,
            patch_strategy: self.patch_strategy,
        }
    }
}

impl Default for PatchParams {
    /// No option set, for a strategic merge patch.
    fn default() -> (r: Self)
        ensures
            r@ == PatchOptions::none(PatchStrategy::Strategic),
    {
        PatchParams {
            dry_run: false,
            field_manager: None,
            field_validation: None,
            patch_strategy: PatchStrategy::Strategic,
        }
    }
}

impl PatchParams {
    /// The query string of these options: empty if none is set, and never
    /// with a stray separator.
    pub fn query(&self) -> (q: String)
        ensures
            q@ == query_of(self@.pairs()),
            q@.len() == 0 <==> self@.pairs().len() == 0,
            well_separated(q@),
    {
        write_query(self.dry_run, &self.field_manager, &self.field_validation)
    }
}

/// Options of the verbs that read a collection: list and watch.
#[derive(Debug)]
pub struct ListParams {
    /// Restrict the objects by their labels.
    pub label_selector: Option<String>,
    /// Restrict the objects by their fields.
    pub field_selector: Option<String>,
    /// The resource version to read at, or to watch from.
    pub resource_version: Option<String>,
    /// How many seconds the server may take.
    pub timeout: Option<u32>,
    /// How many objects one answer may hold.
    pub limit: Option<u32>,
    /// The token with which an earlier, limited answer is continued.
    pub continue_token: Option<String>,
}

/// The mathematical content of [`ListParams`].
pub struct ListOptions {
    pub label_selector: Option<Seq<char>>,
    pub field_selector: Option<Seq<char>>,
    pub resource_version: Option<Seq<char>>,
    pub timeout: Option<u32>,
    pub limit: Option<u32>,
    pub continue_token: Option<Seq<char>>,
}

impl ListOptions {
    /// No option set.
    pub open spec fn none() -> Self {
        ListOptions {
            label_selector: None,
            field_selector: None,
            resource_version: None,
            timeout: None,
            limit: None,
            continue_token: None,
        }
    }

    /// The query pairs of these options, in the order in which they are sent.
    pub open spec fn pairs(self) -> QueryPairs {
        text_pair("labelSelector"@, self.label_selector) + text_pair(
            "fieldSelector"@,
            self.field_selector,
        ) + text_pair("resourceVersion"@, self.resource_version) + number_pair(
            "timeoutSeconds"@,
            self.timeout,
        ) + number_pair("limit"@, self.limit) + text_pair("continue"@, self.continue_token)
    }

    /// The query pairs of a watch with these options: the pair that asks for
    /// a watch, then those of the options.
    pub open spec fn watch_pairs(self) -> QueryPairs {
        seq![("watch"@, "true"@)] + self.pairs()
    }
}

impl View for ListParams {
    type V = ListOptions;

    open spec fn view(&self) -> ListOptions {
        ListOptions {
            label_selector: self.label_selector.deep_view(),
            field_selector: self.field_selector.deep_view(),
            resource_version: self.resource_version.deep_view(),
            timeout: self.timeout,
            limit: self.limit,
            continue_token: self.continue_token.deep_view(),
        }
    }
}

impl Clone for ListParams {
    fn clone(&self) -> (copy: Self)
        ensures
            copy@ == self@,
    {
        ListParams {
            label_selector: self.label_selector.clone(),
            field_selector: self.field_selector.clone(),
            resource_version: self.resource_version.clone(),
            timeout: self.timeout,
            limit: self.limit,
            continue_token: self.continue_token.clone(),
        }
    }
}

impl Default for ListParams {
    fn default() -> (r: Self)
        ensures
            r@ == ListOptions::none(),
    {
        ListParams {
            label_selector: None,
            field_selector: None,
            resource_version: None,
            timeout: None,
            limit: None,
            continue_token: None,
        }
    }
}

impl ListParams {
    /// Appends the pairs of these options to a query.
    fn append_to(&self, query: &mut String, Ghost(pairs): Ghost<QueryPairs>)
        requires
            old(query)@ == query_of(pairs),
        ensures
            final(query)@ == query_of(pairs + self@.pairs()),
    {
        let ghost labels = pairs + text_pair("labelSelector"@, self@.label_selector);
        let ghost fields = labels + text_pair("fieldSelector"@, self@.field_selector);
        let ghost versions = fields + text_pair("resourceVersion"@, self@.resource_version);
        let ghost timeouts = versions + number_pair("timeoutSeconds"@, self@.timeout);
        let ghost limits = timeouts + number_pair("limit"@, self@.limit);
        append_text(query, "labelSelector", &self.label_selector, Ghost(pairs));
        append_text(query, "fieldSelector", &self.field_selector, Ghost(labels));
        append_text(query, "resourceVersion", &self.resource_version, Ghost(fields));
        append_number(query, "timeoutSeconds", self.timeout, Ghost(versions));
        append_number(query, "limit", self.limit, Ghost(timeouts));
        append_text(query, "continue", &self.continue_token, Ghost(limits));
        assert(limits + text_pair("continue"@, self@.continue_token) =~= pairs + self@.pairs());
    }

    /// The query string of a list with these options: empty if none is set,
    /// and never with a stray separator.
    pub fn query(&self) -> (q: String)
        ensures
            q@ == query_of(self@.pairs()),
            q@.len() == 0 <==> self@.pairs().len() == 0,
            well_separated(q@),
    {
        let mut q = String::new();
        let ghost none = QueryPairs::empty();
        self.append_to(&mut q, Ghost(none));
        proof {
            lemma_query_empty_iff_no_pairs(self@.pairs());
            lemma_query_well_separated(self@.pairs());
        }
        q
    }

    /// The query string of a watch with these options: never empty, and
    /// never with a stray separator.
    pub fn watch_query(&self) -> (q: String)
        ensures
            q@ == query_of(self@.watch_pairs()),
            q@.len() > 0,
            well_separated(q@),
    {
        let mut q = String::new();
        let ghost none = QueryPairs::empty();
        append_pair(&mut q, "watch", "true", Ghost(none));
        self.append_to(&mut q, Ghost(none.push(("watch"@, "true"@))));
        proof {
            lemma_query_empty_iff_no_pairs(self@.watch_pairs());
            lemma_query_well_separated(self@.watch_pairs());
        }
        q
    }
}

/// With no option set, every query is empty, and the query of a watch is the
/// one pair that asks for a watch.
pub proof fn lemma_no_options_no_pairs(patch_strategy: PatchStrategy)
    ensures
        PostOptions::none().pairs() == QueryPairs::empty(),
        PatchOptions::none(patch_strategy).pairs() == QueryPairs::empty(),
        ListOptions::none().pairs() == QueryPairs::empty(),
        query_of(PostOptions::none().pairs()) == Seq::<char>::empty(),
        query_of(PatchOptions::none(patch_strategy).pairs()) == Seq::<char>::empty(),
        query_of(ListOptions::none().pairs()) == Seq::<char>::empty(),
        ListOptions::none().watch_pairs() == seq![("watch"@, "true"@)],
{
}

} // verus!
