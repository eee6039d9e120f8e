//! Settings merged from layered sources.
//!
//! The merge itself is the work of the `config` crate: YAML documents and
//! environment variables are stacked in order of rising priority, and a later
//! layer overrides exactly the keys it defines. This module decides which
//! layers are stacked and in which order, keeps away from the merge what it
//! cannot take safely, and reads single keys back out of the merged result.
//! What the crate computes is referred to by name in the contracts; what is
//! stated about those names is listed with each wrapper.

use crate::error::{ErrorView, PlatformError};
use crate::text::chars_of;
use vstd::prelude::*;

verus! {

/// One origin of configuration values, as it is handed to the merge.
pub enum Layer {
    /// The text of a YAML document.
    Document(Seq<char>),
    /// Process environment variables, as name and value pairs. Only names that
    /// begin with `prefix` and `separator` take part; `separator` also divides
    /// the levels of a nested key; with `coerce`, values that read as a
    /// boolean or a number are taken as such.
    Environment {
        prefix: Seq<char>,
        separator: Seq<char>,
        coerce: bool,
        variables: Seq<(Seq<char>, Seq<char>)>,
    },
}

/// What reading one key gave, in contracts. A failure keeps the underlying
/// error.
pub enum Reading<T> {
    /// The key holds a value of the wanted type, or one that converts to it.
    Found(T),
    /// The merged settings hold nothing at the key.
    Missing(config::ConfigError),
    /// The key holds a value that does not convert to the wanted type, or
    /// the key itself is no valid path.
    Invalid(config::ConfigError),
}

/// What reading one key gave. A failure keeps the underlying error.
#[derive(Debug)]
pub enum Lookup<T> {
    Found(T),
    Missing(config::ConfigError),
    Invalid(config::ConfigError),
}

impl<T: DeepView> DeepView for Lookup<T> {
    type V = Reading<T::V>;

    open spec fn deep_view(&self) -> Reading<T::V> {
        match *self {
            Lookup::Found(value) => Reading::Found(value.deep_view()),
            Lookup::Missing(cause) => Reading::Missing(cause),
            Lookup::Invalid(cause) => Reading::Invalid(cause),
        }
    }
}

/// The merged settings of a service. Holds the `config::Config` that the
/// merge built.
#[verifier::external_body]
pub struct Settings {
    merged: config::Config,
}

/// The sources registered so far, lowest priority first. Holds a
/// `config::ConfigBuilder` in its default, synchronous state.
#[verifier::external_body]
pub struct SourceStack {
    builder: config::ConfigBuilder<config::builder::DefaultState>,
}

/// The layers registered in a stack, in the order they were added.
pub uninterp spec fn stacked(stack: SourceStack) -> Seq<Layer>;

/// The layers that were handed to the merge that built the settings, lowest
/// priority first. This is a label that `build` alone sets: the settings
/// themselves keep no record of their sources, and no reading is tied to it.
pub uninterp spec fn merged_from(settings: Settings) -> Seq<Layer>;

/// The top-level keys of a document: those that `config::File` collects from
/// the text, read as YAML. There are none to speak of where the text does
/// not parse as one document whose root is a mapping (or as no document at
/// all), which is what the merge accepts as a layer.
pub uninterp spec fn document_roots(text: Seq<char>) -> Option<Set<Seq<char>>>;

/// What `config::Config::get_string` gives for a key of merged settings.
pub uninterp spec fn text_at(settings: Settings, key: Seq<char>) -> Reading<Seq<char>>;

/// What `config::Config::get_bool` gives for a key of merged settings.
pub uninterp spec fn flag_at(settings: Settings, key: Seq<char>) -> Reading<bool>;

/// What `config::Config::get`, asked for an optional string, gives for a key
/// of merged settings. An explicit null is found as `None`.
pub uninterp spec fn optional_text_at(settings: Settings, key: Seq<char>) -> Reading<
    Option<Seq<char>>,
>;

/// The largest list index that is handed to the merge. A key may name an
/// element of a list, as in `servers[0]`, and the merge makes room for every
/// element up to that index. Up to this limit the room it asks for can be
/// counted in bytes; far enough beyond it the count passes the largest
/// allocation there is, and the allocator panics. Any smaller index is the
/// business of the merge, and of the memory of the machine.
pub open spec fn index_limit() -> nat {
    (usize::MAX / 1024) as nat
}

/// A space or a tab.
pub open spec fn blank(c: char) -> bool {
    c == ' ' || c == '\t'
}

/// A decimal digit.
pub open spec fn digit(c: char) -> bool {
    '0' <= c <= '9'
}

/// The value of a decimal digit.
pub open spec fn digit_value(c: char) -> nat {
    (c as u32 - '0' as u32) as nat
}

/// The first position at or after `from` that holds no blank.
pub open spec fn after_blanks(key: Seq<char>, from: int) -> int
    decreases key.len() - from,
{
    if 0 <= from < key.len() && blank(key[from]) {
        after_blanks(key, from + 1)
    } else {
        from
    }
}

/// The first position at or after `from` that holds no digit.
pub open spec fn after_digits(key: Seq<char>, from: int) -> int
    decreases key.len() - from,
{
    if 0 <= from < key.len() && digit(key[from]) {
        after_digits(key, from + 1)
    } else {
        from
    }
}

/// The number that the digits from `from` up to `to` spell.
pub open spec fn number(key: Seq<char>, from: int, to: int) -> nat
    decreases to - from,
{
    if to <= from {
        0
    } else {
        number(key, from, to - 1) * 10 + digit_value(key[to - 1])
    }
}

/// The size of the index of the subscript that opens at `open`, if one opens
/// there. A subscript is an opening bracket, blanks, an optional minus sign,
/// digits, blanks and a closing bracket, as in `servers[0]` or `servers[ -1 ]`.
pub open spec fn subscript_index(key: Seq<char>, open: int) -> Option<nat> {
    let sign = after_blanks(key, open + 1);
    let first = if 0 <= sign < key.len() && key[sign] == '-' {
        sign + 1
    } else {
        sign
    };
    let last = after_digits(key, first);
    let close = after_blanks(key, last);
    if 0 <= open < key.len() && key[open] == '[' && first < last && close < key.len()
        && key[close] == ']' {
        Some(number(key, first, last))
    } else {
        None
    }
}

/// Whether there is an index, and it is beyond the limit.
pub open spec fn beyond_the_limit(index: Option<nat>) -> bool {
    index matches Some(size) && size > index_limit()
}

/// Whether the key holds a subscript with an index beyond the limit,
/// wherever in the key and whatever stands around it. This is the test for
/// the name of an environment variable: the merge rewrites such a name
/// before it reads it as a path, and none of that makes or unmakes a
/// subscript.
pub open spec fn oversized(key: Seq<char>) -> bool {
    exists|open: int|
        0 <= open < key.len() && beyond_the_limit(#[trigger] subscript_index(key, open))
}

/// A character of a name in a key path: an ASCII letter or digit, an
/// underscore or a hyphen.
pub open spec fn name_char(c: char) -> bool {
    ('a' <= c <= 'z') || ('A' <= c <= 'Z') || digit(c) || c == '_' || c == '-'
}

/// The first position at or after `from` that holds no character of a name.
pub open spec fn after_name(key: Seq<char>, from: int) -> int
    decreases key.len() - from,
{
    if 0 <= from < key.len() && name_char(key[from]) {
        after_name(key, from + 1)
    } else {
        from
    }
}

/// Whether an index of the given sign and size is one that the merge reads:
/// it fits the signed integers of the machine.
pub open spec fn index_fits(negative: bool, size: nat) -> bool {
    if negative {
        size <= usize::MAX / 2 + 1
    } else {
        size <= usize::MAX / 2
    }
}

/// What the key holds from `at` on: nothing the merge reads as the rest of a
/// path, or a run of subscripts and dotted names up to the end of the key;
/// and for such a run, whether one of its subscripts has an index beyond the
/// limit.
pub open spec fn path_rest(key: Seq<char>, at: int) -> Option<bool>
    decreases key.len() - at,
{
    if at < 0 {
        None
    } else if at >= key.len() {
        Some(false)
    } else if key[at] == '.' {
        let end = after_name(key, at + 1);
        if at + 1 < end <= key.len() {
            path_rest(key, end)
        } else {
            None
        }
    } else if key[at] == '[' {
        let sign = after_blanks(key, at + 1);
        let negative = 0 <= sign < key.len() && key[sign] == '-';
        let first = if negative {
            sign + 1
        } else {
            sign
        };
        let last = after_digits(key, first);
        let close = after_blanks(key, last);
        let size = number(key, first, last);
        if first < last && at < close < key.len() && key[close] == ']' && index_fits(
            negative,
            size,
        ) {
            with_index(path_rest(key, close + 1), size > index_limit())
        } else {
            None
        }
    } else {
        None
    }
}

/// The rest of a path, with one more subscript before it.
pub open spec fn with_index(rest: Option<bool>, beyond: bool) -> Option<bool> {
    match rest {
        Some(found) => Some(found || beyond),
        None => None,
    }
}

/// Whether the merge reads the key as a path with a subscript beyond the
/// limit: a name, then subscripts and dotted names up to the end of the key.
/// A key that is no path in full is taken as one plain name, brackets and
/// all, and does no harm.
pub open spec fn unmergeable(key: Seq<char>) -> bool {
    after_name(key, 0) > 0 && path_rest(key, after_name(key, 0)) == Some(true)
}

/// The text is a document the merge accepts as a layer.
pub open spec fn readable_document(text: Seq<char>) -> bool {
    document_roots(text) is Some
}

/// The text is a readable document, none of whose top-level keys is
/// unmergeable.
pub open spec fn plain_document(text: Seq<char>) -> bool {
    document_roots(text) matches Some(roots) && forall|key: Seq<char>|
        roots.contains(key) ==> !unmergeable(key)
}

/// The layer can be handed to the merge: a document is plain, and no
/// environment variable has an oversized name.
pub open spec fn mergeable(layer: Layer) -> bool {
    match layer {
        Layer::Document(text) => plain_document(text),
        Layer::Environment { variables, .. } => forall|i: int|
            0 <= i < variables.len() ==> !oversized(#[trigger] variables[i].0),
    }
}

/// `config::Config::builder`: a builder with no source registered.
#[verifier::external_body]
fn empty_stack() -> (stack: SourceStack)
    ensures
        stacked(stack) == Seq::<Layer>::empty(),
{
    SourceStack { builder: config::Config::builder() }
}

/// `ConfigBuilder::add_source` with `config::File::from_str` in YAML format:
/// the document is registered after the sources already there. Nothing is
/// parsed yet.
#[verifier::external_body]
fn push_document(stack: SourceStack, text: &str) -> (grown: SourceStack)
    ensures
        stacked(grown) == stacked(stack).push(Layer::Document(text@)),
{
    let file = config::File::from_str(text, config::FileFormat::Yaml);
    SourceStack { builder: stack.builder.add_source(file) }
}

/// `ConfigBuilder::add_source` with a `config::Environment` that has the given
/// prefix, separator and parsing switch, and that reads the given pairs in
/// place of the process environment: it is registered after the sources
/// already there. The pairs go in as a map; of two pairs with one name the
/// later is kept, which the layer in the contract, holding the pairs as
/// given, does not show.
#[verifier::external_body]
fn push_environment(
    stack: SourceStack,
    prefix: &str,
    separator: &str,
    coerce: bool,
    variables: &Vec<(String, String)>,
) -> (grown: SourceStack)
    ensures
        stacked(grown) == stacked(stack).push(
            Layer::Environment {
                prefix: prefix@,
                separator: separator@,
                coerce,
                variables: variables.deep_view(),
            },
        ),
{
    let given = variables.iter().cloned().collect();
    let environment = config::Environment::with_prefix(prefix).separator(separator).try_parsing(
        coerce,
    ).source(Some(given));
    SourceStack { builder: stack.builder.add_source(environment) }
}

/// `config::Source::collect` on a `config::File` made of the text in YAML
/// format: the top-level keys of the parsed document, or the error that says
/// why the text is no document. Nothing is merged.
#[verifier::external_body]
fn read_roots(text: &str) -> (roots: Result<Vec<String>, config::ConfigError>)
    ensures
        match roots {
            Ok(keys) => document_roots(text@) == Some(keys.deep_view().to_set()),
            Err(_) => document_roots(text@) is None,
        },
{
    let file = config::File::from_str(text, config::FileFormat::Yaml);
    match config::Source::collect(&file) {
        Ok(table) => Ok(table.into_keys().collect()),
        Err(cause) => Err(cause),
    }
}

/// `ConfigBuilder::build`: collects every registered source in order and
/// merges it over the ones before. It fails exactly when a document does not
/// parse; variables handed in as text never fail to collect. The settings
/// that come out are labelled with the layers that went in; the crate keeps
/// no such record. Keys with an index beyond the limit are kept away: the
/// merge grows a list up to the index it is given, whatever the index.
#[verifier::external_body]
fn build(stack: SourceStack) -> (built: Result<Settings, config::ConfigError>)
    requires
        forall|i: int| 0 <= i < stacked(stack).len() ==> mergeable(#[trigger] stacked(stack)[i]),
    ensures
        built is Ok <==> forall|i: int|
            0 <= i < stacked(stack).len() ==> (#[trigger] stacked(stack)[i] matches Layer::Document(
                text,
            ) ==> readable_document(text)),
        built matches Ok(settings) ==> merged_from(settings) == stacked(stack),
{
    match stack.builder.build() {
        Ok(merged) => Ok(Settings { merged }),
        Err(cause) => Err(cause),
    }
}

/// `config::Config::get_string`: the value at `key` as text. Text is returned
/// as it is, a boolean or a number in its display form; a null, a table or a
/// list does not convert. The error `NotFound` is told apart from the others.
#[verifier::external_body]
pub(crate) fn lookup_text(settings: &Settings, key: &str) -> (found: Lookup<String>)
    ensures
        found.deep_view() == text_at(*settings, key@),
{
    match settings.merged.get_string(key) {
        Ok(text) => Lookup::Found(text),
        Err(cause @ config::ConfigError::NotFound(_)) => Lookup::Missing(cause),
        Err(cause) => Lookup::Invalid(cause),
    }
}

/// `config::Config::get_bool`: the value at `key` as a boolean. The error
/// `NotFound` is told apart from the others.
#[verifier::external_body]
pub(crate) fn lookup_flag(settings: &Settings, key: &str) -> (found: Lookup<bool>)
    ensures
        found.deep_view() == flag_at(*settings, key@),
{
    match settings.merged.get_bool(key) {
        Ok(flag) => Lookup::Found(flag),
        Err(cause @ config::ConfigError::NotFound(_)) => Lookup::Missing(cause),
        Err(cause) => Lookup::Invalid(cause),
    }
}

/// `config::Config::get` for `Option<String>`: the value at `key` as text, or
/// `None` where the key holds an explicit null. The error `NotFound` is told
/// apart from the others.
#[verifier::external_body]
pub(crate) fn lookup_optional_text(settings: &Settings, key: &str) -> (found: Lookup<Option<String>>)
    ensures
        found.deep_view() == optional_text_at(*settings, key@),
{
    match settings.merged.get::<Option<String>>(key) {
        Ok(text) => Lookup::Found(text),
        Err(cause @ config::ConfigError::NotFound(_)) => Lookup::Missing(cause),
        Err(cause) => Lookup::Invalid(cause),
    }
}

/// The prefix that marks an environment variable as a setting.
pub open spec fn variable_prefix() -> Seq<char> {
    "DP"@
}

/// What follows the prefix, and what divides the levels of a nested key.
pub open spec fn variable_separator() -> Seq<char> {
    "__"@
}

/// What a refused key is told.
pub open spec fn subscript_refusal() -> Seq<char> {
    "list index is out of range"@
}

/// The variables that are handed to the merge: all but those with an
/// oversized name. With such a variable the merge does not return if it
/// reads the name as a path; if it does not, the variable is no setting of
/// a service, or one under a name that no field is read by. Either way no
/// field of a configuration is lost with it.
pub open spec fn plain_variables(variables: Seq<(Seq<char>, Seq<char>)>) -> Seq<
    (Seq<char>, Seq<char>),
> {
    variables.filter(|variable: (Seq<char>, Seq<char>)| !oversized(variable.0))
}

/// The layer made of the given environment variables.
pub open spec fn environment_layer(variables: Seq<(Seq<char>, Seq<char>)>) -> Layer {
    Layer::Environment {
        prefix: variable_prefix(),
        separator: variable_separator(),
        coerce: true,
        variables: plain_variables(variables),
    }
}

/// The layers of a service's configuration, lowest priority first: the
/// documents in the order given, then the environment variables.
pub open spec fn layering(
    documents: Seq<Seq<char>>,
    variables: Seq<(Seq<char>, Seq<char>)>,
) -> Seq<Layer> {
    Seq::new(documents.len(), |i: int| Layer::Document(documents[i])).push(
        environment_layer(variables),
    )
}

/// Every document can be merged.
pub open spec fn all_plain(documents: Seq<Seq<char>>) -> bool {
    forall|i: int| 0 <= i < documents.len() ==> plain_document(#[trigger] documents[i])
}

/// The document at `at` is the first that cannot be merged.
pub open spec fn first_refused(documents: Seq<Seq<char>>, at: int) -> bool {
    &&& 0 <= at < documents.len()
    &&& !plain_document(documents[at])
    &&& forall|i: int| 0 <= i < at ==> plain_document(#[trigger] documents[i])
}

/// The error says why the document cannot be merged: a configuration error
/// where the text is not readable, else a validation error that names one of
/// its unmergeable keys.
pub open spec fn refuses(error: ErrorView, text: Seq<char>) -> bool {
    match document_roots(text) {
        None => error is Config,
        Some(roots) => error matches ErrorView::Validation { field, message } && roots.contains(
            field,
        ) && unmergeable(field) && message == subscript_refusal(),
    }
}

/// The first position at or after `from` that holds no blank.
fn skip_blanks(key: &Vec<char>, from: usize) -> (to: usize)
    requires
        from <= key.len(),
    ensures
        to == after_blanks(key@, from as int),
        from <= to <= key.len(),
{
    let mut at = from;
    while at < key.len() && (key[at] == ' ' || key[at] == '\t')
        invariant
            from <= at <= key.len(),
            after_blanks(key@, from as int) == after_blanks(key@, at as int),
        decreases key.len() - at,
    {
        at = at + 1;
    }
    at
}

/// The first position at or after `from` that holds no digit.
fn skip_digits(key: &Vec<char>, from: usize) -> (to: usize)
    requires
        from <= key.len(),
    ensures
        to == after_digits(key@, from as int),
        from <= to <= key.len(),
        forall|i: int| from <= i < to ==> digit(#[trigger] key@[i]),
{
    let mut at = from;
    while at < key.len() && '0' <= key[at] && key[at] <= '9'
        invariant
            from <= at <= key.len(),
            after_digits(key@, from as int) == after_digits(key@, at as int),
            forall|i: int| from <= i < at ==> digit(#[trigger] key@[i]),
        decreases key.len() - at,
    {
        at = at + 1;
    }
    at
}

/// The number that the digits from `from` up to `to` spell, or `cap` where
/// the number is not below it.
fn capped_number(key: &Vec<char>, from: usize, to: usize, cap: u128) -> (seen: u128)
    requires
        from <= to <= key.len(),
        forall|i: int| from <= i < to ==> digit(#[trigger] key@[i]),
        cap <= u64::MAX,
    ensures
        seen == if number(key@, from as int, to as int) < cap {
            number(key@, from as int, to as int)
        } else {
            cap as nat
        },
{
    let mut seen: u128 = 0;
    let mut at = from;
    while at < to
        invariant
            from <= at <= to <= key.len(),
            cap <= u64::MAX,
            forall|i: int| from <= i < to ==> digit(#[trigger] key@[i]),
            seen <= cap,
            seen == if number(key@, from as int, at as int) < cap {
                number(key@, from as int, at as int)
            } else {
                cap as nat
            },
        decreases to - at,
    {
        assert(digit(key@[at as int]));
        let value = (key[at] as u32 - '0' as u32) as u128;
        let next = seen * 10 + value;
        seen = if next < cap {
            next
        } else {
            cap
        };
        at = at + 1;
    }
    seen
}

/// The first position at or after `from` that holds no character of a name.
fn skip_name(key: &Vec<char>, from: usize) -> (to: usize)
    requires
        from <= key.len(),
    ensures
        to == after_name(key@, from as int),
        from <= to <= key.len(),
{
    let mut at = from;
    while at < key.len() && (('a' <= key[at] && key[at] <= 'z') || ('A' <= key[at] && key[at] <= 'Z')
        || ('0' <= key[at] && key[at] <= '9') || key[at] == '_' || key[at] == '-')
        invariant
            from <= at <= key.len(),
            after_name(key@, from as int) == after_name(key@, at as int),
        decreases key.len() - at,
    {
        at = at + 1;
    }
    at
}

/// Whether a subscript with an index beyond the limit opens at `open`.
fn oversized_at(key: &Vec<char>, open: usize) -> (yes: bool)
    requires
        open < key.len(),
    ensures
        yes == beyond_the_limit(subscript_index(key@, open as int)),
{
    if key[open] != '[' {
        return false;
    }
    let sign = skip_blanks(key, open + 1);
    let first = if sign < key.len() && key[sign] == '-' {
        sign + 1
    } else {
        sign
    };
    let last = skip_digits(key, first);
    let close = skip_blanks(key, last);
    if first < last && close < key.len() && key[close] == ']' {
        let limit = (usize::MAX / 1024) as u128;
        capped_number(key, first, last, limit + 1) > limit
    } else {
        false
    }
}

/// Whether the key holds a subscript with an index beyond the limit.
pub fn has_oversized_subscript(key: &str) -> (yes: bool)
    ensures
        yes == oversized(key@),
{
    let chars = chars_of(key);
    let mut open: usize = 0;
    while open < chars.len()
        invariant
            chars@ == key@,
            open <= chars.len(),
            forall|i: int|
                0 <= i < open ==> !beyond_the_limit(#[trigger] subscript_index(key@, i)),
        decreases chars.len() - open,
    {
        if oversized_at(&chars, open) {
            return true;
        }
        open = open + 1;
    }
    false
}

/// Whether the merge reads the key as a path with a subscript beyond the
/// limit.
pub fn is_unmergeable(key: &str) -> (yes: bool)
    ensures
        yes == unmergeable(key@),
{
    let chars = chars_of(key);
    let begin = skip_name(&chars, 0);
    if begin == 0 {
        return false;
    }
    let limit = (usize::MAX / 1024) as u128;
    let widest = (usize::MAX / 2) as u128;
    let mut found = false;
    let mut at = begin;
    while at < chars.len()
        invariant
            chars@ == key@,
            begin == after_name(key@, 0),
            0 < begin <= at <= chars.len(),
            limit == index_limit(),
            widest == usize::MAX / 2,
            path_rest(key@, begin as int) == with_index(path_rest(key@, at as int), found),
        decreases chars.len() - at,
    {
        if chars[at] == '.' {
            let end = skip_name(&chars, at + 1);
            if end == at + 1 {
                return false;
            }
            at = end;
        } else if chars[at] == '[' {
            let sign = skip_blanks(&chars, at + 1);
            let negative = sign < chars.len() && chars[sign] == '-';
            let first = if negative {
                sign + 1
            } else {
                sign
            };
            let last = skip_digits(&chars, first);
            let close = skip_blanks(&chars, last);
            if !(first < last && close < chars.len() && chars[close] == ']') {
                return false;
            }
            let size = capped_number(&chars, first, last, widest + 2);
            let fits = if negative {
                size <= widest + 1
            } else {
                size <= widest
            };
            if !fits {
                return false;
            }
            if size > limit {
                found = true;
            }
            at = close + 1;
        } else {
            return false;
        }
    }
    found
}

/// The position of an unmergeable key among `keys`, if there is one.
pub fn find_unmergeable(keys: &Vec<String>) -> (found: Option<usize>)
    ensures
        match found {
            Some(at) => at < keys.len() && unmergeable(keys[at as int]@),
            None => forall|i: int| 0 <= i < keys.len() ==> !unmergeable(#[trigger] keys[i]@),
        },
{
    let mut next: usize = 0;
    while next < keys.len()
        invariant
            next <= keys.len(),
            forall|i: int| 0 <= i < next ==> !unmergeable(#[trigger] keys[i]@),
        decreases keys.len() - next,
    {
        if is_unmergeable(keys[next].as_str()) {
            return Some(next);
        }
        next = next + 1;
    }
    None
}

/// The variables without those that have an oversized name, in the order
/// given.
pub fn without_oversized(variables: &Vec<(String, String)>) -> (kept: Vec<(String, String)>)
    ensures
        kept.deep_view() == plain_variables(variables.deep_view()),
{
    let ghost plain = |variable: (Seq<char>, Seq<char>)| !oversized(variable.0);
    let mut kept: Vec<(String, String)> = Vec::new();
    let mut next: usize = 0;
    proof {
        reveal(Seq::filter);
    }
    while next < variables.len()
        invariant
            next <= variables.len(),
            plain == |variable: (Seq<char>, Seq<char>)| !oversized(variable.0),
            kept.deep_view() == variables.deep_view().take(next as int).filter(plain),
        decreases variables.len() - next,
    {
        let name = &variables[next].0;
        let value = &variables[next].1;
        proof {
            let taken = variables.deep_view().take(next as int + 1);
            reveal(Seq::filter);
            assert(taken.drop_last() =~= variables.deep_view().take(next as int));
        }
        if !has_oversized_subscript(name.as_str()) {
            kept.push((name.clone(), value.clone()));
        }
        next = next + 1;
    }
    assert(variables.deep_view().take(next as int) =~= variables.deep_view());
    kept
}

/// Sources are stacked in rising priority: the documents in the order given,
/// and the environment variables above them all.
pub proof fn lemma_variables_outrank_documents(
    documents: Seq<Seq<char>>,
    variables: Seq<(Seq<char>, Seq<char>)>,
)
    ensures
        layering(documents, variables).len() == documents.len() + 1,
        forall|i: int|
            0 <= i < documents.len() ==> #[trigger] layering(documents, variables)[i]
                == Layer::Document(documents[i]),
        layering(documents, variables)[documents.len() as int] == environment_layer(variables),
{
}

/// The variables that reach the merge are those given, less the ones with an
/// oversized name: none of them is oversized, and each was given.
pub proof fn lemma_plain_variables_are_plain(variables: Seq<(Seq<char>, Seq<char>)>)
    ensures
        mergeable(environment_layer(variables)),
        forall|i: int|
            0 <= i < plain_variables(variables).len() ==> variables.contains(
                #[trigger] plain_variables(variables)[i],
            ),
        forall|i: int|
            0 <= i < variables.len() && !oversized(variables[i].0) ==> plain_variables(
                variables,
            ).contains(#[trigger] variables[i]),
{
    broadcast use vstd::seq_lib::group_filter_ensures;

    let plain = |variable: (Seq<char>, Seq<char>)| !oversized(variable.0);
    let kept = plain_variables(variables);
    assert forall|i: int| 0 <= i < kept.len() implies variables.contains(#[trigger] kept[i]) by {
        assert(variables.filter(plain).contains(kept[i]));
        variables.lemma_filter_contains_rev(plain, kept[i]);
    }
    assert forall|i: int| 0 <= i < kept.len() implies !oversized(#[trigger] kept[i].0) by {
        variables.lemma_filter_pred(plain, i);
    }
}

/// Without documents nothing stands in the way of the merge, and the
/// environment variables are all that is merged.
pub proof fn lemma_variables_alone_merge(variables: Seq<(Seq<char>, Seq<char>)>)
    ensures
        all_plain(Seq::empty()),
        layering(Seq::empty(), variables) == seq![environment_layer(variables)],
{
}

impl Settings {
    /// The settings were merged from exactly these sources.
    pub open spec fn merged_of(
        &self,
        documents: Seq<Seq<char>>,
        variables: Seq<(Seq<char>, Seq<char>)>,
    ) -> bool {
        merged_from(*self) == layering(documents, variables)
    }

    /// Merges the sources of a service's configuration.
    ///
    /// `documents` are the texts of the configuration files that exist, lowest
    /// priority first; `variables` are the environment variables of the
    /// process, which outrank every document. A key may index a list, as in
    /// `servers[0]`; only an index beyond `index_limit` is kept away from the
    /// merge. Variables with such a name are left out. The merge succeeds
    /// exactly when every document can be merged; else the error is that of
    /// the first document that cannot: a configuration error where it is not
    /// readable, a validation error that names the key where the merge
    /// cannot take one of its top-level keys.
    ///
    /// Which settings come out is for the merge to say. Where two variables
    /// speak of one key, as `DP__S3` and `DP__S3__REGION` do, or two names
    /// that differ in case only, it takes them in no fixed order, and two
    /// merges of the same sources may differ.
    pub fn merge(documents: &Vec<String>, variables: &Vec<(String, String)>) -> (merged: Result<
        Settings,
        PlatformError,
    >)
        ensures
            merged is Ok <==> all_plain(documents.deep_view()),
            merged matches Ok(settings) ==> settings.merged_of(
                documents.deep_view(),
                variables.deep_view(),
            ),
            merged matches Err(error) ==> exists|at: int| #[trigger]
                first_refused(documents.deep_view(), at) && refuses(
                    error@,
                    documents.deep_view()[at],
                ),
    {
        let mut stack = empty_stack();
        let mut next: usize = 0;
        while next < documents.len()
            invariant
                next <= documents.len(),
                forall|i: int| 0 <= i < next ==> plain_document(#[trigger] documents.deep_view()[i]),
                stacked(stack) == Seq::new(
                    next as nat,
                    |i: int| Layer::Document(documents.deep_view()[i]),
                ),
            decreases documents.len() - next,
        {
            let text = documents[next].as_str();
            match read_roots(text) {
                Ok(roots) => {
                    if let Some(at) = find_unmergeable(&roots) {
                        let error = PlatformError::validation(
                            roots[at].as_str(),
                            "list index is out of range",
                        );
                        proof {
                            assert(roots.deep_view().to_set().contains(roots[at as int]@)) by {
                                assert(roots.deep_view()[at as int] == roots[at as int]@);
                            }
                            assert(first_refused(documents.deep_view(), next as int));
                        }
                        return Err(error);
                    }
                    proof {
                        assert forall|key: Seq<char>|
                            roots.deep_view().to_set().contains(key) implies !unmergeable(key) by {
                            let i = choose|i: int|
                                0 <= i < roots.deep_view().len() && roots.deep_view()[i] == key;
                            assert(roots[i]@ == key);
                        }
                    }
                },
                Err(cause) => {
                    proof {
                        assert(first_refused(documents.deep_view(), next as int));
                    }
                    return Err(PlatformError::from(cause));
                },
            }
            stack = push_document(stack, text);
            next = next + 1;
        }
        let kept = without_oversized(variables);
        stack = push_environment(stack, "DP", "__", true, &kept);
        proof {
            lemma_plain_variables_are_plain(variables.deep_view());
        }
        match build(stack) {
            Ok(settings) => Ok(settings),
            Err(cause) => Err(PlatformError::from(cause)),
        }
    }
}

} // verus!
