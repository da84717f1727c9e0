//! The format-agnostic configuration model: a document is an ordered list of
//! key/value entries, each value being scalar text, a sequence of elements, or
//! an opaque value that no rule of this library reads.

use vstd::prelude::*;
use vstd::string::StrSliceExecFns;
use vstd::string::StringExecFns;

verus! {

/// One element of a configuration sequence, as far as the provisioning rules
/// read it: a piece of text, or anything else.
#[derive(Debug, Clone, PartialEq, Eq)]
pub enum ConfigItem {
    Text(String),
    Other,
}

/// One configuration value: scalar text, a sequence of elements, or an opaque
/// value of some other shape.
#[derive(Debug, Clone, PartialEq, Eq)]
pub enum ConfigValue {
    Text(String),
    List(Vec<ConfigItem>),
    Opaque,
}

/// The mathematical content of one sequence element.
pub enum ItemModel {
    Text(Seq<char>),
    Other,
}

/// The mathematical content of one configuration value.
pub enum ValueModel {
    Text(Seq<char>),
    List(Seq<ItemModel>),
    Opaque,
}

impl View for ConfigItem {
    type V = ItemModel;

    open spec fn view(&self) -> ItemModel {
        match self {
            ConfigItem::Text(s) => ItemModel::Text(s@),
            ConfigItem::Other => ItemModel::Other,
        }
    }
}

pub open spec fn item_models(items: Seq<ConfigItem>) -> Seq<ItemModel> {
    items.map_values(|item: ConfigItem| item@)
}

impl View for ConfigValue {
    type V = ValueModel;

    open spec fn view(&self) -> ValueModel {
        match self {
            ConfigValue::Text(s) => ValueModel::Text(s@),
            ConfigValue::List(items) => ValueModel::List(item_models(items@)),
            ConfigValue::Opaque => ValueModel::Opaque,
        }
    }
}

/// The value stored under `key`: the value of the first entry whose key has
/// these characters, if any entry does.
pub open spec fn doc_lookup(
    entries: Seq<(String, ConfigValue)>,
    key: Seq<char>,
) -> Option<ConfigValue>
    decreases entries.len(),
{
    if entries.len() == 0 {
        None
    } else if entries[0].0@ == key {
        Some(entries[0].1)
    } else {
        doc_lookup(entries.skip(1), key)
    }
}

/// The mathematical content stored under `key`.
pub open spec fn doc_lookup_model(
    entries: Seq<(String, ConfigValue)>,
    key: Seq<char>,
) -> Option<ValueModel> {
    match doc_lookup(entries, key) {
        Some(value) => Some(value@),
        None => None,
    }
}

/// Whether a document's keys are pairwise distinct.
pub open spec fn distinct_keys(entries: Seq<(String, ConfigValue)>) -> bool {
    forall|i: int, j: int| 0 <= i < j < entries.len() ==> entries[i].0@ != entries[j].0@
}

proof fn lemma_doc_lookup_skip(entries: Seq<(String, ConfigValue)>, key: Seq<char>, i: int)
    requires
        0 <= i <= entries.len(),
        forall|j: int| 0 <= j < i ==> entries[j].0@ != key,
    ensures
        doc_lookup(entries, key) == doc_lookup(entries.skip(i), key),
    decreases i,
{
    if i == 0 {
        assert(entries.skip(0) =~= entries);
    } else {
        assert(entries[0].0@ != key);
        assert forall|j: int| 0 <= j < i - 1 implies entries.skip(1)[j].0@ != key by {
            assert(entries.skip(1)[j] == entries[j + 1]);
        }
        lemma_doc_lookup_skip(entries.skip(1), key, i - 1);
        assert(entries.skip(1).skip(i - 1) =~= entries.skip(i));
    }
}

/// Whether two string slices hold the same characters.
pub fn str_eq(a: &str, b: &str) -> (equal: bool)
    ensures
        equal == (a@ == b@),
{
    let n: usize = a.unicode_len();
    if n != b.unicode_len() {
        return false;
    }
    let mut i: usize = 0;
    while i < n
        invariant
            n == a@.len(),
            n == b@.len(),
            i <= n,
            forall|j: int| 0 <= j < i ==> a@[j] == b@[j],
        decreases n - i,
    {
        if a.get_char(i) != b.get_char(i) {
            return false;
        }
        i += 1;
    }
    proof {
        assert(a@ =~= b@);
    }
    true
}

/// Looks `key` up in a document: the first entry with that key wins.
pub fn doc_get<'a>(
    entries: &'a Vec<(String, ConfigValue)>,
    key: &str,
) -> (value: Option<&'a ConfigValue>)
    ensures
        match value {
            Some(v) => doc_lookup(entries@, key@) == Some(*v),
            None => doc_lookup(entries@, key@) is None,
        },
{
    let mut i: usize = 0;
    while i < entries.len()
        invariant
            i <= entries@.len(),
            forall|j: int| 0 <= j < i ==> entries@[j].0@ != key@,
        decreases entries@.len() - i,
    {
        if str_eq(entries[i].0.as_str(), key) {
            proof {
                lemma_doc_lookup_skip(entries@, key@, i as int);
            }
            return Some(&entries[i].1);
        }
        i += 1;
    }
    proof {
        lemma_doc_lookup_skip(entries@, key@, entries@.len() as int);
        assert(entries@.skip(entries@.len() as int) =~= Seq::<(String, ConfigValue)>::empty());
    }
    None
}

/// Why a configuration source could not be turned into a desired state.
#[derive(Debug, Clone, PartialEq, Eq)]
pub enum ConfigError {
    /// The source's format indicator is neither of the two supported syntaxes.
    UnsupportedFormat,
    /// The source is not a well-formed document of its syntax.
    ParseFailed(String),
    /// The named required key is absent or does not have the required shape.
    MissingField(String),
}

impl ConfigError {
    /// An operator-facing description of the failure.
    pub fn describe(&self) -> (message: String)
        ensures
            message@ == match self {
                ConfigError::UnsupportedFormat => "Unsupported file format."@,
                ConfigError::ParseFailed(detail) => "Failed to parse the configuration: "@
                    + detail@,
                ConfigError::MissingField(field) => "Missing or invalid '"@ + field@ + "'"@,
            },
    {
        match self {
            ConfigError::UnsupportedFormat => String::from_str("Unsupported file format."),
            ConfigError::ParseFailed(detail) => String::from_str(
                "Failed to parse the configuration: ",
            ).concat(detail.as_str()),
            ConfigError::MissingField(field) => String::from_str("Missing or invalid '").concat(
                field.as_str(),
            ).concat("'"),
        }
    }
}

/// The two supported configuration syntaxes, or neither.
#[derive(Debug, Clone, Copy, PartialEq, Eq, Structural)]
pub enum FileFormat {
    Yaml,
    Json,
    Unknown,
}

/// Whether `path` ends in a dot followed by exactly the characters of `ext`,
/// with at least one file-name character before the dot.
pub open spec fn has_extension(path: Seq<char>, ext: Seq<char>) -> bool {
    &&& path.len() >= ext.len() + 2
    &&& path[path.len() - ext.len() - 1] == '.'
    &&& path[path.len() - ext.len() - 2] != '/'
    &&& path.skip(path.len() - ext.len()) == ext
}

/// The syntax a path's extension announces: `.yaml` and `.yml` name one
/// syntax, `.json` the other, anything else is unsupported.
pub open spec fn spec_file_format(path: Seq<char>) -> FileFormat {
    if has_extension(path, "yaml"@) || has_extension(path, "yml"@) {
        FileFormat::Yaml
    } else if has_extension(path, "json"@) {
        FileFormat::Json
    } else {
        FileFormat::Unknown
    }
}

fn path_has_extension(path: &str, ext: &str) -> (found: bool)
    ensures
        found == has_extension(path@, ext@),
{
    let n: usize = path.unicode_len();
    let m: usize = ext.unicode_len();
    if n < 2 || m > n - 2 {
        return false;
    }
    if path.get_char(n - m - 1) != '.' {
        return false;
    }
    if path.get_char(n - m - 2) == '/' {
        return false;
    }
    let mut i: usize = 0;
    while i < m
        invariant
            n == path@.len(),
            m == ext@.len(),
            m <= n - 2,
            n >= 2,
            i <= m,
            forall|j: int| 0 <= j < i ==> path@[n - m + j] == ext@[j],
        decreases m - i,
    {
        if path.get_char(n - m + i) != ext.get_char(i) {
            proof {
                assert(path@.skip(n - m) != ext@) by {
                    if path@.skip(n - m) == ext@ {
                        assert(path@.skip(n - m)[i as int] == ext@[i as int]);
                    }
                }
            }
            return false;
        }
        i += 1;
    }
    proof {
        assert(path@.skip(n - m) =~= ext@);
    }
    true
}

/// Reads the format indicator off the source's path.
pub fn determine_file_format(file_path: &str) -> (format: FileFormat)
    ensures
        format == spec_file_format(file_path@),
{
    if path_has_extension(file_path, "yaml") || path_has_extension(file_path, "yml") {
        FileFormat::Yaml
    } else if path_has_extension(file_path, "json") {
        FileFormat::Json
    } else {
        FileFormat::Unknown
    }
}

} // verus!
