//! The metadata model: plain records mirroring the registry's JSON shape.
//!
//! A [`Krate`] is the full decoded response for one package: the package's
//! own metadata, its versions (ordered newest-first by registry
//! convention, so the first element is the latest), its categories and,
//! optionally, its keywords (the registry may return null entries, hence
//! the nested options). The records are pure data, decoded once and never
//! mutated; the only logic on them is the version/feature lookup below.

use std::collections::HashMap;
use vstd::prelude::*;
use vstd::string::StringExecFns;

verus! {

/// One published version of a package.
#[derive(Debug, Clone, PartialEq)]
pub struct KrateVersion {
    pub crate_size: Option<i64>,
    pub license: Option<String>,
    pub num: String,
    pub readme_path: String,
    pub yanked: bool,
    pub features: Option<HashMap<String, Vec<String>>>,
    pub id: i64,
}

/// One registry category a package belongs to.
#[derive(Debug, Clone, PartialEq)]
pub struct KrateCategory {
    pub category: String,
    pub crates_cnt: i32,
    pub created_at: String,
    pub description: String,
    pub id: String,
    pub slug: String,
}

/// The package's own metadata block.
#[derive(Debug, Clone, PartialEq)]
pub struct KrateMetadata {
    pub categories: Vec<String>,
    pub created_at: String,
    pub description: String,
    pub documentation: Option<String>,
    pub downloads: i32,
    pub exact_match: bool,
    pub homepage: Option<String>,
    pub id: String,
    pub keywords: Vec<String>,
    pub max_version: String,
    pub max_stable_version: String,
    pub name: String,
    pub newest_version: String,
    pub recent_downloads: i64,
    pub repository: String,
    pub updated_at: String,
    pub versions: Vec<i32>,
}

/// One registry keyword attached to a package.
#[derive(Debug, Clone, PartialEq)]
pub struct KrateKeyword {
    pub crates_cnt: i64,
    pub created_at: String,
    pub id: String,
    pub keyword: String,
}

/// The full decoded registry response for one package.
#[derive(Debug, Clone, PartialEq)]
pub struct Krate {
    pub categories: Vec<KrateCategory>,
    pub versions: Vec<KrateVersion>,
    pub krate: KrateMetadata,
    pub keywords: Option<Vec<Option<KrateKeyword>>>,
}

/// The feature mapping the lookup returns for version string `v`: the
/// `features` field of the first version whose number equals `v` exactly,
/// or nothing when no version number matches.
pub open spec fn spec_features_for_version(
    versions: Seq<KrateVersion>,
    v: Seq<char>,
) -> Option<HashMap<String, Vec<String>>>
    decreases versions.len(),
{
    if versions.len() == 0 {
        None
    } else if versions[0].num@ == v {
        versions[0].features
    } else {
        spec_features_for_version(versions.drop_first(), v)
    }
}

/// The lookup is decided by the first exact match: if every version
/// before index `i` has a different number and the version at `i` matches
/// `v`, the lookup returns exactly that version's feature field.
pub proof fn lemma_features_first_match(versions: Seq<KrateVersion>, v: Seq<char>, i: int)
    requires
        0 <= i < versions.len(),
        versions[i].num@ == v,
        forall|j: int| 0 <= j < i ==> versions[j].num@ != v,
    ensures
        spec_features_for_version(versions, v) == versions[i].features,
    decreases i,
{
    if i > 0 {
        lemma_features_first_match(versions.drop_first(), v, i - 1);
    }
}

/// The lookup is empty for a version string not present among the
/// versions: if no version number equals `v`, it returns nothing.
pub proof fn lemma_features_no_match(versions: Seq<KrateVersion>, v: Seq<char>)
    requires
        forall|j: int| 0 <= j < versions.len() ==> versions[j].num@ != v,
    ensures
        spec_features_for_version(versions, v) is None,
    decreases versions.len(),
{
    if versions.len() > 0 {
        lemma_features_no_match(versions.drop_first(), v);
    }
}

/// The lookup returns a feature mapping only for an exact string match:
/// whenever it returns something, some version's number equals `v`.
pub proof fn lemma_features_only_for_match(versions: Seq<KrateVersion>, v: Seq<char>)
    ensures
        spec_features_for_version(versions, v) is Some ==> exists|i: int|
            0 <= i < versions.len() && versions[i].num@ == v,
    decreases versions.len(),
{
    if versions.len() > 0 && versions[0].num@ != v {
        lemma_features_only_for_match(versions.drop_first(), v);
        if spec_features_for_version(versions, v) is Some {
            let i = choose|i: int|
                0 <= i < versions.drop_first().len() && versions.drop_first()[i].num@ == v;
            assert(versions[i + 1].num@ == v);
        }
    }
}

impl Krate {
    /// Returns the number of the latest version.
    ///
    /// The registry returns versions ordered newest-first and never
    /// returns an empty version list for an existing package, so the
    /// latest version is the first element; an empty list is outside
    /// this function's contract.
    pub fn get_latest(&self) -> (r: String)
        requires
            self.versions@.len() > 0,
        ensures
            r@ == self.versions@[0].num@,
    {
        self.versions[0].num.clone()
    }

    /// Returns the feature mapping of the first version whose number
    /// exactly equals `version`, or nothing when no version number
    /// matches or the matched version has no feature field. The scan is
    /// linear; the client enforces no uniqueness of version numbers.
    pub fn get_features_for_version(&self, version: &str) -> (r: Option<
        &HashMap<String, Vec<String>>,
    >)
        ensures
            (match r {
                Some(features) => spec_features_for_version(self.versions@, version@) == Some(
                    *features,
                ),
                None => spec_features_for_version(self.versions@, version@) is None,
            }),
    {
        let wanted = String::from_str(version);
        let n = self.versions.len();
        let mut idx: usize = 0;
        while idx < n
            invariant
                n == self.versions@.len(),
                idx <= n,
                wanted@ == version@,
                forall|j: int| 0 <= j < idx ==> self.versions@[j].num@ != version@,
            decreases n - idx,
        {
            if self.versions[idx].num == wanted {
                proof {
                    lemma_features_first_match(self.versions@, version@, idx as int);
                }
                return self.versions[idx].features.as_ref();
            }
            idx += 1;
        }
        proof {
            lemma_features_no_match(self.versions@, version@);
        }
        None
    }
}

} // verus!
