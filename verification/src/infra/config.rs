//! Decoding of the answer to a configuration query. The configuration is
//! taken whole or not at all: any missing part fails the answer.

use crate::domain::category::Category;
use crate::domain::instance_version::{
    version_reading, InstanceVersion, InstanceVersionParsingError, VersionReading,
};
use vstd::prelude::*;

verus! {

/// Why a configuration query gave nothing.
#[derive(Debug)]
pub enum ConfigFetchError {
    /// The transport failed; the payload is its message.
    HttpError(String),
    /// The version of the instance could not be read.
    InstanceVersionParsingError(InstanceVersionParsingError),
    /// A part of the answer that must be there is not; the payload names it.
    MissingField(String),
}

/// The configuration of an instance.
#[derive(Debug)]
pub struct FetchConfigResponse {
    pub instance_version: InstanceVersion,
    pub categories: Vec<Category>,
    pub languages: Vec<String>,
}

impl Default for FetchConfigResponse {
    /// Version 0.0.0, no categories and no languages.
    fn default() -> (empty: FetchConfigResponse)
        ensures
            empty.instance_version == (InstanceVersion { major: 0, minor: 0, patch: 0 }),
            empty.categories@.len() == 0,
            empty.languages@.len() == 0,
    {
        FetchConfigResponse {
            instance_version: InstanceVersion { major: 0, minor: 0, patch: 0 },
            categories: Vec::new(),
            languages: Vec::new(),
        }
    }
}

/// A category as received.
#[derive(Debug)]
pub struct RawCategory {
    pub id: Option<String>,
    pub label: Option<String>,
}

/// The configuration as received.
#[derive(Debug)]
pub struct RawConfig {
    pub version: Option<String>,
    pub event_categories: Option<Vec<Option<RawCategory>>>,
    pub languages: Option<Vec<Option<String>>>,
}

/// The data of an answer to a configuration query.
#[derive(Debug)]
pub struct RawConfigData {
    pub config: Option<RawConfig>,
}

/// The answer to a configuration query.
#[derive(Debug)]
pub struct RawConfigResponse {
    pub data: Option<RawConfigData>,
}

impl RawCategory {
    /// Whether identifier and label are both there.
    pub open spec fn is_complete(&self) -> bool {
        self.id is Some && self.label is Some
    }
}

/// Whether some category of the list is null.
pub open spec fn has_null_category(categories: Seq<Option<RawCategory>>) -> bool {
    exists|i: int| 0 <= i < categories.len() && (#[trigger] categories[i]) is None
}

/// Whether the category at `position` is the first that lacks a part.
pub open spec fn is_first_incomplete(categories: Seq<Option<RawCategory>>, position: int) -> bool {
    &&& 0 <= position < categories.len()
    &&& !categories[position]->0.is_complete()
    &&& forall|j: int| 0 <= j < position ==> (#[trigger] categories[j])->0.is_complete()
}

/// Whether `decoded` holds, in order, the identifier and label of each of
/// the first `count` categories, and no more.
pub open spec fn same_first_categories(
    categories: Seq<Option<RawCategory>>,
    decoded: Seq<Category>,
    count: int,
) -> bool {
    &&& decoded.len() == count
    &&& forall|i: int|
        0 <= i < count ==> {
            &&& (#[trigger] categories[i]) is Some
            &&& categories[i]->0.id == Some(decoded[i].id)
            &&& categories[i]->0.label == Some(decoded[i].label)
        }
}

/// Whether `decoded` holds, in order, the identifier and label of each category.
pub open spec fn same_categories(
    categories: Seq<Option<RawCategory>>,
    decoded: Seq<Category>,
) -> bool {
    same_first_categories(categories, decoded, categories.len() as int)
}

/// Whether no category is null and none lacks a part.
pub open spec fn all_complete(categories: Seq<Option<RawCategory>>) -> bool {
    forall|i: int|
        0 <= i < categories.len() ==> (#[trigger] categories[i]) is Some
            && categories[i]->0.is_complete()
}

/// The name that a list of categories fails with, if some category is null
/// or lacks a part: `category` for a null anywhere in the list; else `label`
/// if the first category that lacks a part lacks its label, and `id` if not.
pub open spec fn is_category_failure(categories: Seq<Option<RawCategory>>, name: Seq<char>) -> bool {
    ||| has_null_category(categories) && name == "category"@
    ||| !has_null_category(categories) && exists|i: int|
        #[trigger] is_first_incomplete(categories, i) && name == (if categories[i]->0.label is None {
            "label"@
        } else {
            "id"@
        })
}

/// The entries of a list that are not null, in order.
pub open spec fn non_null(entries: Seq<Option<String>>) -> Seq<String>
    decreases entries.len(),
{
    if entries.len() == 0 {
        Seq::empty()
    } else {
        match entries.last() {
            Some(entry) => non_null(entries.drop_last()).push(entry),
            None => non_null(entries.drop_last()),
        }
    }
}

impl RawConfigResponse {
    /// The configuration, where the answer has one.
    pub open spec fn config(&self) -> Option<RawConfig> {
        match self.data {
            Some(data) => data.config,
            None => None,
        }
    }

    /// The version text, where the answer has one.
    pub open spec fn version(&self) -> Option<String> {
        match self.config() {
            Some(config) => config.version,
            None => None,
        }
    }

    /// Whether `outcome` is what decoding this answer gives. The checks come
    /// in this order, and the first that fails decides:
    /// - without a version text, `MissingField("version")`;
    /// - where the version does not read, `InstanceVersionParsingError` with
    ///   the reader's error;
    /// - without a list of categories, `MissingField("categories")`;
    /// - where a category is null, `MissingField("category")`;
    /// - where a category lacks a part, `MissingField("label")` if the first
    ///   such lacks its label, `MissingField("id")` if not;
    /// - without a list of languages, `MissingField("languages")`.
    /// Else the version, the categories in order, and the languages that are
    /// not null, in order.
    pub open spec fn decodes_to(&self, outcome: Result<FetchConfigResponse, ConfigFetchError>) -> bool {
        match outcome {
            Err(ConfigFetchError::HttpError(_)) => false,
            Err(ConfigFetchError::InstanceVersionParsingError(error)) => {
                &&& self.version() is Some
                &&& match error {
                    InstanceVersionParsingError::ParseIntError(_) => version_reading(
                        self.version()->0@,
                    ) is InvalidInteger,
                    InstanceVersionParsingError::ParseError(given) => version_reading(
                        self.version()->0@,
                    ) is WrongShape && given@ == self.version()->0@,
                }
            },
            Err(ConfigFetchError::MissingField(name)) => {
                ||| self.version() is None && name@ == "version"@
                ||| {
                    &&& self.version() is Some
                    &&& version_reading(self.version()->0@) is Version
                    &&& match self.config()->0.event_categories {
                        None => name@ == "categories"@,
                        Some(categories) => {
                            ||| is_category_failure(categories@, name@)
                            ||| all_complete(categories@) && self.config()->0.languages
                                is None && name@ == "languages"@
                        },
                    }
                }
            },
            Ok(config) => {
                &&& self.version() is Some
                &&& version_reading(self.version()->0@) == (VersionReading::Version {
                    major: config.instance_version.major as int,
                    minor: config.instance_version.minor as int,
                    patch: config.instance_version.patch as int,
                })
                &&& self.config()->0.event_categories is Some
                &&& same_categories(self.config()->0.event_categories->0@, config.categories@)
                &&& self.config()->0.languages is Some
                &&& config.languages@ == non_null(self.config()->0.languages->0@)
            },
        }
    }
}

/// Decodes the categories of a configuration. A null anywhere in the list
/// fails it; else the first category that lacks a part does, with `label` if
/// it lacks its label and with `id` if not.
pub fn decode_categories(categories: &Vec<Option<RawCategory>>) -> (outcome: Result<
    Vec<Category>,
    ConfigFetchError,
>)
    ensures
        match outcome {
            Ok(decoded) => same_categories(categories@, decoded@),
            Err(ConfigFetchError::MissingField(name)) => is_category_failure(categories@, name@),
            Err(_) => false,
        },
{
    if any_null_category(categories) {
        return Err(ConfigFetchError::MissingField("category".to_string()));
    }
    let mut decoded: Vec<Category> = Vec::new();
    let mut at: usize = 0;
    while at < categories.len()
        invariant
            !has_null_category(categories@),
            0 <= at <= categories@.len(),
            same_first_categories(categories@, decoded@, at as int),
        decreases categories@.len() - at,
    {
        assert(categories@[at as int] is Some);
        match &categories[at] {
            Some(category) => {
                let label: String = match &category.label {
                    Some(label) => label.clone(),
                    None => {
                        assert(is_first_incomplete(categories@, at as int));
                        return Err(ConfigFetchError::MissingField("label".to_string()));
                    },
                };
                let id: String = match &category.id {
                    Some(id) => id.clone(),
                    None => {
                        assert(is_first_incomplete(categories@, at as int));
                        return Err(ConfigFetchError::MissingField("id".to_string()));
                    },
                };
                decoded.push(Category { id, label });
            },
            None => {},
        }
        at = at + 1;
    }
    Ok(decoded)
}

/// Whether some category of the list is null.
pub fn any_null_category(categories: &Vec<Option<RawCategory>>) -> (found: bool)
    ensures
        found == has_null_category(categories@),
{
    let mut at: usize = 0;
    while at < categories.len()
        invariant
            0 <= at <= categories@.len(),
            forall|i: int| 0 <= i < at ==> (#[trigger] categories@[i]) is Some,
        decreases categories@.len() - at,
    {
        if categories[at].is_none() {
            assert(has_null_category(categories@)) by {
                assert(categories@[at as int] is None);
            }
            return true;
        }
        at = at + 1;
    }
    false
}

/// The entries of a list of languages that are not null, in order.
pub fn collect_languages(entries: &Vec<Option<String>>) -> (languages: Vec<String>)
    ensures
        languages@ == non_null(entries@),
{
    let mut languages: Vec<String> = Vec::new();
    let mut at: usize = 0;
    while at < entries.len()
        invariant
            0 <= at <= entries@.len(),
            languages@ == non_null(entries@.take(at as int)),
        decreases entries@.len() - at,
    {
        proof {
            assert(entries@.take(at + 1).drop_last() == entries@.take(at as int));
            assert(entries@.take(at + 1).last() == entries@[at as int]);
        }
        match &entries[at] {
            Some(entry) => {
                languages.push(entry.clone());
            },
            None => {},
        }
        at = at + 1;
    }
    assert(entries@.take(at as int) == entries@);
    languages
}

/// Decodes the answer to a configuration query.
pub fn decode_config(response: &RawConfigResponse) -> (outcome: Result<
    FetchConfigResponse,
    ConfigFetchError,
>)
    ensures
        response.decodes_to(outcome),
{
    let config: &RawConfig = match &response.data {
        Some(RawConfigData { config: Some(config) }) => config,
        _ => {
            return Err(ConfigFetchError::MissingField("version".to_string()));
        },
    };
    let version: &String = match &config.version {
        Some(version) => version,
        None => {
            return Err(ConfigFetchError::MissingField("version".to_string()));
        },
    };
    let instance_version: InstanceVersion = match InstanceVersion::from_str(version.as_str()) {
        Ok(instance_version) => instance_version,
        Err(error) => {
            return Err(ConfigFetchError::InstanceVersionParsingError(error));
        },
    };
    let raw_categories: &Vec<Option<RawCategory>> = match &config.event_categories {
        Some(categories) => categories,
        None => {
            return Err(ConfigFetchError::MissingField("categories".to_string()));
        },
    };
    let categories: Vec<Category> = match decode_categories(raw_categories) {
        Ok(categories) => categories,
        Err(error) => {
            return Err(error);
        },
    };
    let languages: Vec<String> = match &config.languages {
        Some(entries) => collect_languages(entries),
        None => {
            return Err(ConfigFetchError::MissingField("languages".to_string()));
        },
    };
    Ok(FetchConfigResponse { instance_version, categories, languages })
}

} // verus!
