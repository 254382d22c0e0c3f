//! Configuration validation.
//!
//! The host supplies raw, untyped fields; `validate` either produces a fully
//! typed configuration or fails with an error naming the offending field.
//! Required fields must be present and parse against the identifier grammar;
//! optional fields are absent-tolerant; labels must parse pairwise, later
//! occurrences of the same label name overriding earlier ones.

use vstd::prelude::*;

use crate::ident::{
    valid_identifier, valid_label_value, AccessKeyId, AccountName, LabelName, LabelValue,
    ProfileName, ProjectName,
};

verus! {

/// The raw fields as the host hands them over, before any validation.
/// `None` stands both for an absent field and, for the optional fields,
/// for a present value of the wrong shape (the permissive policy).
pub struct RawInstanceConfig {
    pub access_key_id: Option<String>,
    pub secret_access_key: Option<String>,
    pub account: Option<String>,
    pub project: Option<String>,
    pub watch_config: Option<bool>,
    pub profile: Option<String>,
    pub config_path: Option<String>,
    pub labels: Vec<(String, String)>,
}

/// A validated configuration: every typed field has parsed, and the label
/// names are unique.
#[derive(Debug)]
pub struct InstanceConfig {
    pub access_key_id: AccessKeyId,
    pub secret_access_key: String,
    pub account: AccountName,
    pub project: ProjectName,
    pub watch_config: Option<bool>,
    pub profile: Option<ProfileName>,
    pub config_path: Option<String>,
    pub labels: Vec<(LabelName, LabelValue)>,
}

/// A validation failure, naming the offending field.
#[derive(Clone, Copy, Debug, PartialEq, Eq, Structural)]
pub enum ConfigError {
    MissingAccessKeyId,
    InvalidAccessKeyId,
    MissingSecretAccessKey,
    MissingAccount,
    InvalidAccount,
    MissingProject,
    InvalidProject,
    InvalidProfile,
    InvalidLabelName,
    InvalidLabelValue,
}

impl ConfigError {
    /// A human-readable message naming the offending field.
    pub fn message(&self) -> (r: &'static str)
        ensures
            self is MissingAccessKeyId ==> r@ == "access_key_id is missing"@,
            self is InvalidAccessKeyId ==> r@ == "access_key_id is not a valid identifier"@,
            self is MissingSecretAccessKey ==> r@ == "secret_access_key is missing"@,
            self is MissingAccount ==> r@ == "account is missing"@,
            self is InvalidAccount ==> r@ == "account is not a valid identifier"@,
            self is MissingProject ==> r@ == "project is missing"@,
            self is InvalidProject ==> r@ == "project is not a valid identifier"@,
            self is InvalidProfile ==> r@ == "profile is not a valid identifier"@,
            self is InvalidLabelName ==> r@ == "bad label name"@,
            self is InvalidLabelValue ==> r@ == "bad label value"@,
    {
        match self {
            ConfigError::MissingAccessKeyId => "access_key_id is missing",
            ConfigError::InvalidAccessKeyId => "access_key_id is not a valid identifier",
            ConfigError::MissingSecretAccessKey => "secret_access_key is missing",
            ConfigError::MissingAccount => "account is missing",
            ConfigError::InvalidAccount => "account is not a valid identifier",
            ConfigError::MissingProject => "project is missing",
            ConfigError::InvalidProject => "project is not a valid identifier",
            ConfigError::InvalidProfile => "profile is not a valid identifier",
            ConfigError::InvalidLabelName => "bad label name",
            ConfigError::InvalidLabelValue => "bad label value",
        }
    }
}

/// The first label error, scanning the pairs in order, name before value.
pub open spec fn spec_labels_error(labels: Seq<(String, String)>) -> Option<ConfigError>
    decreases labels.len(),
{
    if labels.len() == 0 {
        None
    } else if !valid_identifier(labels[0].0@) {
        Some(ConfigError::InvalidLabelName)
    } else if !valid_label_value(labels[0].1@) {
        Some(ConfigError::InvalidLabelValue)
    } else {
        spec_labels_error(labels.skip(1))
    }
}

/// The first validation error of the whole configuration, in the order the
/// fields are examined; `None` means the configuration is valid.
pub open spec fn spec_config_error(raw: RawInstanceConfig) -> Option<ConfigError> {
    if raw.access_key_id is None {
        Some(ConfigError::MissingAccessKeyId)
    } else if !valid_identifier(raw.access_key_id->0@) {
        Some(ConfigError::InvalidAccessKeyId)
    } else if raw.secret_access_key is None {
        Some(ConfigError::MissingSecretAccessKey)
    } else if raw.account is None {
        Some(ConfigError::MissingAccount)
    } else if !valid_identifier(raw.account->0@) {
        Some(ConfigError::InvalidAccount)
    } else if raw.project is None {
        Some(ConfigError::MissingProject)
    } else if !valid_identifier(raw.project->0@) {
        Some(ConfigError::InvalidProject)
    } else if raw.profile is Some && !valid_identifier(raw.profile->0@) {
        Some(ConfigError::InvalidProfile)
    } else {
        spec_labels_error(raw.labels@)
    }
}

/// The mapping the raw label pairs stand for: inserted in order, so a later
/// pair with the same name overrides an earlier one.
pub open spec fn spec_labels_map(labels: Seq<(String, String)>) -> Map<Seq<char>, Seq<char>>
    decreases labels.len(),
{
    if labels.len() == 0 {
        Map::empty()
    } else {
        spec_labels_map(labels.drop_last()).insert(labels.last().0@, labels.last().1@)
    }
}

/// The mapping a validated label vector stands for.
pub open spec fn labels_view(labels: Seq<(LabelName, LabelValue)>) -> Map<Seq<char>, Seq<char>>
    decreases labels.len(),
{
    if labels.len() == 0 {
        Map::empty()
    } else {
        labels_view(labels.drop_last()).insert(labels.last().0@, labels.last().1@)
    }
}

/// The override law of the label mapping: a pair whose name has no later
/// occurrence decides the value bound to that name, so a later pair with the
/// same name overrides every earlier one.
pub proof fn lemma_labels_map_last_occurrence(labels: Seq<(String, String)>, i: int)
    requires
        0 <= i < labels.len(),
        forall|j: int| i < j < labels.len() ==> (#[trigger] labels[j]).0@ != labels[i].0@,
    ensures
        spec_labels_map(labels).contains_key(labels[i].0@),
        spec_labels_map(labels)[labels[i].0@] == labels[i].1@,
    decreases labels.len(),
{
    if i < labels.len() - 1 {
        assert(labels.drop_last()[i] == labels[i]);
        lemma_labels_map_last_occurrence(labels.drop_last(), i);
        assert(labels.last().0@ != labels[i].0@);
    }
}

/// No two entries share a label name.
pub open spec fn unique_label_names(labels: Seq<(LabelName, LabelValue)>) -> bool {
    forall|i: int, j: int| 0 <= i < j < labels.len() ==> labels[i].0@ != labels[j].0@
}

impl InstanceConfig {
    /// Every typed field parsed and the label names are unique.
    pub open spec fn wf(self) -> bool {
        &&& self.access_key_id.valid()
        &&& self.account.valid()
        &&& self.project.valid()
        &&& (self.profile matches Some(p) ==> p.valid())
        &&& unique_label_names(self.labels@)
        &&& forall|i: int|
            0 <= i < self.labels@.len() ==> (#[trigger] self.labels@[i]).0.valid()
                && self.labels@[i].1.valid()
    }
}

/// Replacing the value at an entry, with unique names, is an insert on the
/// mapping the vector stands for.
proof fn lemma_labels_view_update(labels: Seq<(LabelName, LabelValue)>, j: int, v: LabelValue)
    requires
        0 <= j < labels.len(),
        unique_label_names(labels),
    ensures
        labels_view(labels.update(j, (labels[j].0, v))) == labels_view(labels).insert(
            labels[j].0@,
            v@,
        ),
    decreases labels.len(),
{
    let upd = labels.update(j, (labels[j].0, v));
    let k = labels[j].0@;
    if j == labels.len() - 1 {
        assert(upd.drop_last() =~= labels.drop_last());
        assert(upd.last() == (labels[j].0, v));
        assert(labels_view(upd) == labels_view(labels.drop_last()).insert(k, v@));
        assert(labels_view(labels.drop_last()).insert(k, labels.last().1@).insert(k, v@)
            =~= labels_view(labels.drop_last()).insert(k, v@));
    } else {
        assert(upd.drop_last() =~= labels.drop_last().update(j, (labels[j].0, v)));
        assert(labels.drop_last()[j] == labels[j]);
        lemma_labels_view_update(labels.drop_last(), j, v);
        let last = labels.last();
        assert(upd.last() == last);
        // the updated name differs from the last entry's name
        assert(labels[j].0@ != last.0@);
        assert(labels_view(upd) == labels_view(labels.drop_last()).insert(k, v@).insert(
            last.0@,
            last.1@,
        ));
        assert(labels_view(labels.drop_last()).insert(k, v@).insert(last.0@, last.1@)
            =~= labels_view(labels.drop_last()).insert(last.0@, last.1@).insert(k, v@));
    }
}

/// Validates the raw configuration: returns the typed configuration exactly
/// when no field is missing or malformed, and otherwise the first error in
/// field order.
pub fn validate(raw: RawInstanceConfig) -> (r: Result<InstanceConfig, ConfigError>)
    ensures
        r is Ok <==> spec_config_error(raw) is None,
        r matches Err(e) ==> spec_config_error(raw) == Some(e),
        r matches Ok(c) ==> {
            &&& c.wf()
            &&& c.access_key_id@ == raw.access_key_id->0@
            &&& c.secret_access_key@ == raw.secret_access_key->0@
            &&& c.account@ == raw.account->0@
            &&& c.project@ == raw.project->0@
            &&& c.watch_config == raw.watch_config
            &&& (c.config_path is Some <==> raw.config_path is Some)
            &&& (c.config_path matches Some(p) ==> p@ == raw.config_path->0@)
            &&& (c.profile is Some <==> raw.profile is Some)
            &&& (c.profile matches Some(p) ==> p@ == raw.profile->0@)
            &&& labels_view(c.labels@) == spec_labels_map(raw.labels@)
        },
{
    let RawInstanceConfig {
        access_key_id,
        secret_access_key,
        account,
        project,
        watch_config,
        profile,
        config_path,
        labels,
    } = raw;

    let access_key_id = match access_key_id {
        None => {
            return Err(ConfigError::MissingAccessKeyId);
        },
        Some(s) => match AccessKeyId::parse(s.as_str()) {
            Ok(id) => id,
            Err(_) => {
                return Err(ConfigError::InvalidAccessKeyId);
            },
        },
    };
    let secret_access_key = match secret_access_key {
        None => {
            return Err(ConfigError::MissingSecretAccessKey);
        },
        Some(s) => s,
    };
    let account = match account {
        None => {
            return Err(ConfigError::MissingAccount);
        },
        Some(s) => match AccountName::parse(s.as_str()) {
            Ok(id) => id,
            Err(_) => {
                return Err(ConfigError::InvalidAccount);
            },
        },
    };
    let project = match project {
        None => {
            return Err(ConfigError::MissingProject);
        },
        Some(s) => match ProjectName::parse(s.as_str()) {
            Ok(id) => id,
            Err(_) => {
                return Err(ConfigError::InvalidProject);
            },
        },
    };
    let profile = match profile {
        None => None,
        Some(s) => match ProfileName::parse(s.as_str()) {
            Ok(p) => Some(p),
            Err(_) => {
                return Err(ConfigError::InvalidProfile);
            },
        },
    };

    let ghost raw_labels = labels@;
    proof {
        assert(raw_labels.skip(0) =~= raw_labels);
    }
    let mut parsed: Vec<(LabelName, LabelValue)> = Vec::new();
    let n = labels.len();
    let mut i: usize = 0;
    while i < n
        invariant
            0 <= i <= n,
            n == raw_labels.len(),
            labels@ == raw_labels,
            spec_config_error(raw) == spec_labels_error(raw_labels),
            spec_labels_error(raw_labels) == spec_labels_error(raw_labels.skip(i as int)),
            unique_label_names(parsed@),
            forall|t: int|
                0 <= t < parsed@.len() ==> (#[trigger] parsed@[t]).0.valid()
                    && parsed@[t].1.valid(),
            labels_view(parsed@) == spec_labels_map(raw_labels.take(i as int)),
        decreases n - i,
    {
        proof {
            assert(raw_labels.skip(i as int)[0] == raw_labels[i as int]);
        }
        let name = match LabelName::parse(labels[i].0.as_str()) {
            Ok(nm) => nm,
            Err(_) => {
                proof {
                    assert(spec_labels_error(raw_labels.skip(i as int)) == Some(
                        ConfigError::InvalidLabelName,
                    ));
                }
                return Err(ConfigError::InvalidLabelName);
            },
        };
        let value = match LabelValue::parse(labels[i].1.as_str()) {
            Ok(v) => v,
            Err(_) => {
                proof {
                    assert(spec_labels_error(raw_labels.skip(i as int)) == Some(
                        ConfigError::InvalidLabelValue,
                    ));
                }
                return Err(ConfigError::InvalidLabelValue);
            },
        };

        let m = parsed.len();
        let mut j: usize = 0;
        let mut pos: Option<usize> = None;
        while j < m
            invariant
                0 <= j <= m,
                m == parsed@.len(),
                name@ == raw_labels[i as int].0@,
                pos is None ==> forall|t: int| 0 <= t < j ==> (#[trigger] parsed@[t]).0@ != name@,
                pos matches Some(p) ==> p < m && parsed@[p as int].0@ == name@,
            decreases m - j,
        {
            if pos.is_none() && parsed[j].0.same_name(&name) {
                pos = Some(j);
            }
            j += 1;
        }

        match pos {
            Some(p) => {
                proof {
                    lemma_labels_view_update(parsed@, p as int, value);
                }
                parsed[p].1 = value;
            },
            None => {
                proof {
                    assert(parsed@.push((name, value)).drop_last() =~= parsed@);
                }
                parsed.push((name, value));
            },
        }

        proof {
            assert(raw_labels.take(i + 1).drop_last() =~= raw_labels.take(i as int));
            assert(raw_labels.take(i + 1).last() == raw_labels[i as int]);
            assert(labels_view(parsed@) =~= spec_labels_map(raw_labels.take(i + 1)));
            assert(spec_labels_error(raw_labels.skip(i as int)) == spec_labels_error(
                raw_labels.skip(i as int).skip(1),
            ));
            assert(raw_labels.skip(i as int).skip(1) =~= raw_labels.skip(i + 1));
        }
        i += 1;
    }

    proof {
        assert(raw_labels.take(n as int) =~= raw_labels);
        assert(raw_labels.skip(n as int) =~= Seq::<(String, String)>::empty());
    }

    Ok(InstanceConfig {
        access_key_id,
        secret_access_key,
        account,
        project,
        watch_config,
        profile,
        config_path,
        labels: parsed,
    })
}

} // verus!
