//! The config resolver: merges the mutually exclusive sources of an
//! anonymization or modification request — inline flags or a config
//! file's parsed content — into one canonical request object.

use vstd::prelude::*;

use crate::errors::CliError;
use crate::tagpairs::first_malformed;
use crate::tagpairs::lemma_pair_splits_unique;
use crate::tagpairs::malformed_pair_error;
use crate::tagpairs::pairs_match;
use crate::tagpairs::parse_tag_kv_pairs;
use crate::text::opt_bool_eq;
use crate::text::opt_string_eq;
use crate::text::pair_vec_eq;
use crate::text::string_vec_eq;

verus! {

/// An anonymization request: tags to replace, tags to keep, whether to
/// keep private tags, an optional DICOM version, and the confirmation
/// bypass flag that this client always sets.
#[derive(Debug)]
pub struct Anonymization {
    pub replace: Option<Vec<(String, String)>>,
    pub keep: Option<Vec<String>>,
    pub keep_private_tags: Option<bool>,
    pub dicom_version: Option<String>,
    pub force: Option<bool>,
}

/// A modification request: tags to replace, tags to remove, and the
/// confirmation bypass flag that this client always sets.
#[derive(Debug)]
pub struct Modification {
    pub replace: Option<Vec<(String, String)>>,
    pub remove: Option<Vec<String>>,
    pub force: Option<bool>,
}

impl Anonymization {
    /// The request as one mathematical value: the texts of its fields.
    pub open spec fn dv(&self) -> (
        Option<Seq<(Seq<char>, Seq<char>)>>,
        Option<Seq<Seq<char>>>,
        Option<bool>,
        Option<Seq<char>>,
        Option<bool>,
    ) {
        (
            self.replace.deep_view(),
            self.keep.deep_view(),
            self.keep_private_tags,
            self.dicom_version.deep_view(),
            self.force,
        )
    }
}

impl Modification {
    /// The request as one mathematical value: the texts of its fields.
    pub open spec fn dv(&self) -> (
        Option<Seq<(Seq<char>, Seq<char>)>>,
        Option<Seq<Seq<char>>>,
        Option<bool>,
    ) {
        (self.replace.deep_view(), self.remove.deep_view(), self.force)
    }
}

fn opt_pairs_eq(a: &Option<Vec<(String, String)>>, b: &Option<Vec<(String, String)>>) -> (r: bool)
    ensures
        r == (a.deep_view() == b.deep_view()),
{
    match (a, b) {
        (Some(x), Some(y)) => pair_vec_eq(x, y),
        (None, None) => true,
        _ => false,
    }
}

fn opt_strings_eq(a: &Option<Vec<String>>, b: &Option<Vec<String>>) -> (r: bool)
    ensures
        r == (a.deep_view() == b.deep_view()),
{
    match (a, b) {
        (Some(x), Some(y)) => string_vec_eq(x, y),
        (None, None) => true,
        _ => false,
    }
}

impl PartialEq for Anonymization {
    fn eq(&self, other: &Anonymization) -> (r: bool) {
        opt_pairs_eq(&self.replace, &other.replace) && opt_strings_eq(&self.keep, &other.keep)
            && opt_bool_eq(&self.keep_private_tags, &other.keep_private_tags) && opt_string_eq(
            &self.dicom_version,
            &other.dicom_version,
        ) && opt_bool_eq(&self.force, &other.force)
    }
}

impl vstd::std_specs::cmp::PartialEqSpecImpl for Anonymization {
    open spec fn obeys_eq_spec() -> bool {
        true
    }

    open spec fn eq_spec(&self, other: &Anonymization) -> bool {
        self.dv() == other.dv()
    }
}

impl Eq for Anonymization {

}

impl PartialEq for Modification {
    fn eq(&self, other: &Modification) -> (r: bool) {
        opt_pairs_eq(&self.replace, &other.replace) && opt_strings_eq(&self.remove, &other.remove)
            && opt_bool_eq(&self.force, &other.force)
    }
}

impl vstd::std_specs::cmp::PartialEqSpecImpl for Modification {
    open spec fn obeys_eq_spec() -> bool {
        true
    }

    open spec fn eq_spec(&self, other: &Modification) -> bool {
        self.dv() == other.dv()
    }
}

impl Eq for Modification {

}

/// Whether any inline anonymization flag was given.
pub open spec fn inline_anon_given(
    replace: Option<Vec<String>>,
    keep: Option<Vec<String>>,
    keep_private_tags: Option<bool>,
) -> bool {
    replace is Some || keep is Some || keep_private_tags is Some
}

/// Whether any inline modification flag was given.
pub open spec fn inline_mod_given(
    replace: Option<Vec<String>>,
    remove: Option<Vec<String>>,
) -> bool {
    replace is Some || remove is Some
}

/// The error raised when inline flags and a config file are both given.
pub open spec fn conflicting_options_error(e: CliError) -> bool {
    &&& e.error@ == "Command error"@
    &&& e.message.deep_view() == Some("Conflicting options"@)
    &&& e.details is None
}

/// The error raised when a modification has no source at all.
pub open spec fn insufficient_options_error(e: CliError) -> bool {
    &&& e.error@ == "Command error"@
    &&& e.message.deep_view() == Some("Not enough options"@)
    &&& e.details is None
}

/// The request that the inline anonymization flags denote: the replace
/// tokens parsed into pairs, the other flags carried over, no DICOM
/// version, and the confirmation bypass set.
pub open spec fn anon_built_from_cmd(
    a: Anonymization,
    replace: Option<Vec<String>>,
    keep: Option<Vec<String>>,
    keep_private_tags: Option<bool>,
) -> bool {
    &&& match replace {
        None => a.replace is None,
        Some(v) => a.replace matches Some(p) && pairs_match(p.deep_view(), v.deep_view()),
    }
    &&& a.keep.deep_view() == keep.deep_view()
    &&& a.keep_private_tags == keep_private_tags
    &&& a.dicom_version is None
    &&& a.force == Some(true)
}

/// The request that the inline modification flags denote.
pub open spec fn mod_built_from_cmd(
    m: Modification,
    replace: Option<Vec<String>>,
    remove: Option<Vec<String>>,
) -> bool {
    &&& match replace {
        None => m.replace is None,
        Some(v) => m.replace matches Some(p) && pairs_match(p.deep_view(), v.deep_view()),
    }
    &&& m.remove.deep_view() == remove.deep_view()
    &&& m.force == Some(true)
}

/// A file-loaded request is taken as it stands, except that the
/// confirmation bypass is set regardless of the file's own value.
pub open spec fn anon_forced_from_file(b: Anonymization, a: Anonymization) -> bool {
    &&& b.replace.deep_view() == a.replace.deep_view()
    &&& b.keep.deep_view() == a.keep.deep_view()
    &&& b.keep_private_tags == a.keep_private_tags
    &&& b.dicom_version.deep_view() == a.dicom_version.deep_view()
    &&& b.force == Some(true)
}

/// A file-loaded modification is taken as it stands, except that the
/// confirmation bypass is set regardless of the file's own value.
pub open spec fn mod_forced_from_file(b: Modification, m: Modification) -> bool {
    &&& b.replace.deep_view() == m.replace.deep_view()
    &&& b.remove.deep_view() == m.remove.deep_view()
    &&& b.force == Some(true)
}

/// Whether the replace tokens, if any, all parse.
pub open spec fn replace_tokens_ok(replace: Option<Vec<String>>) -> bool {
    match replace {
        None => true,
        Some(v) => first_malformed(v.deep_view()) is None,
    }
}

/// Builds an anonymization request from the inline flags alone.
pub fn get_anonymization_config_from_cmd_options(
    replace: Option<Vec<String>>,
    keep: Option<Vec<String>>,
    keep_private_tags: Option<bool>,
) -> (r: Result<Anonymization, CliError>)
    ensures
        r is Ok <==> replace_tokens_ok(replace),
        r matches Ok(a) ==> anon_built_from_cmd(a, replace, keep, keep_private_tags),
        r matches Err(e) ==> replace matches Some(v) && malformed_pair_error(e, v.deep_view()),
{
    let parsed = match &replace {
        Some(v) => Some(parse_tag_kv_pairs(v)),
        None => None,
    };
    let replace_pairs = match parsed {
        Some(Err(e)) => {
            return Err(e);
        },
        Some(Ok(pairs)) => Some(pairs),
        None => None,
    };
    Ok(
        Anonymization {
            replace: replace_pairs,
            keep,
            keep_private_tags,
            dicom_version: None,
            force: Some(true),
        },
    )
}

/// Builds a modification request from the inline flags alone.
pub fn get_modification_config_from_cmd_options(
    replace: Option<Vec<String>>,
    remove: Option<Vec<String>>,
) -> (r: Result<Modification, CliError>)
    ensures
        r is Ok <==> replace_tokens_ok(replace),
        r matches Ok(m) ==> mod_built_from_cmd(m, replace, remove),
        r matches Err(e) ==> replace matches Some(v) && malformed_pair_error(e, v.deep_view()),
{
    let parsed = match &replace {
        Some(v) => Some(parse_tag_kv_pairs(v)),
        None => None,
    };
    let replace_pairs = match parsed {
        Some(Err(e)) => {
            return Err(e);
        },
        Some(Ok(pairs)) => Some(pairs),
        None => None,
    };
    Ok(Modification { replace: replace_pairs, remove, force: Some(true) })
}

/// Takes a file-loaded anonymization request, setting the confirmation
/// bypass regardless of the file's own value.
pub fn get_anonymization_config_from_file(config: Anonymization) -> (r: Anonymization)
    ensures
        anon_forced_from_file(r, config),
{
    Anonymization {
        replace: config.replace,
        keep: config.keep,
        keep_private_tags: config.keep_private_tags,
        dicom_version: config.dicom_version,
        force: Some(true),
    }
}

/// Takes a file-loaded modification request, setting the confirmation
/// bypass regardless of the file's own value.
pub fn get_modification_config_from_file(config: Modification) -> (r: Modification)
    ensures
        mod_forced_from_file(r, config),
{
    Modification { replace: config.replace, remove: config.remove, force: Some(true) }
}

/// Resolves the anonymization sources: inline flags and a file are
/// mutually exclusive; a file is taken with the bypass forced; inline
/// flags are parsed and taken; nothing at all means no overrides, which
/// is not an error.
pub fn get_anonymization_config(
    replace: Option<Vec<String>>,
    keep: Option<Vec<String>>,
    keep_private_tags: Option<bool>,
    config_file: Option<Anonymization>,
) -> (r: Result<Option<Anonymization>, CliError>)
    ensures
        inline_anon_given(replace, keep, keep_private_tags) && config_file is Some ==> (r matches
            Err(e) && conflicting_options_error(e)),
        config_file matches Some(a) ==> !inline_anon_given(replace, keep, keep_private_tags) ==> (r
            matches Ok(s) && s matches Some(b) && anon_forced_from_file(b, a)),
        !inline_anon_given(replace, keep, keep_private_tags) && config_file is None ==> (r matches
            Ok(s) && s is None),
        inline_anon_given(replace, keep, keep_private_tags) && config_file is None ==> {
            &&& (r is Ok <==> replace_tokens_ok(replace))
            &&& (r matches Ok(s) ==> s matches Some(a) && anon_built_from_cmd(
                a,
                replace,
                keep,
                keep_private_tags,
            ))
            &&& (r matches Err(e) ==> replace matches Some(v) && malformed_pair_error(
                e,
                v.deep_view(),
            ))
        },
{
    if (replace.is_some() || keep.is_some() || keep_private_tags.is_some())
        && config_file.is_some() {
        return Err(CliError::new("Command error", Some("Conflicting options"), None));
    }
    match config_file {
        Some(c) => Ok(Some(get_anonymization_config_from_file(c))),
        None => {
            if replace.is_none() && keep.is_none() && keep_private_tags.is_none() {
                Ok(None)
            } else {
                match get_anonymization_config_from_cmd_options(replace, keep, keep_private_tags) {
                    Ok(a) => Ok(Some(a)),
                    Err(e) => Err(e),
                }
            }
        },
    }
}

/// Resolves the modification sources: at least one source must be
/// given; inline flags and a file are mutually exclusive; a file is
/// taken with the bypass forced; inline flags are parsed and taken.
pub fn get_modification_config(
    replace: Option<Vec<String>>,
    remove: Option<Vec<String>>,
    config_file: Option<Modification>,
) -> (r: Result<Modification, CliError>)
    ensures
        !inline_mod_given(replace, remove) && config_file is None ==> (r matches Err(e)
            && insufficient_options_error(e)),
        inline_mod_given(replace, remove) && config_file is Some ==> (r matches Err(e)
            && conflicting_options_error(e)),
        config_file matches Some(m) ==> !inline_mod_given(replace, remove) ==> (r matches Ok(b)
            && mod_forced_from_file(b, m)),
        inline_mod_given(replace, remove) && config_file is None ==> {
            &&& (r is Ok <==> replace_tokens_ok(replace))
            &&& (r matches Ok(b) ==> mod_built_from_cmd(b, replace, remove))
            &&& (r matches Err(e) ==> replace matches Some(v) && malformed_pair_error(
                e,
                v.deep_view(),
            ))
        },
{
    if replace.is_none() && remove.is_none() && config_file.is_none() {
        return Err(CliError::new("Command error", Some("Not enough options"), None));
    }
    if (replace.is_some() || remove.is_some()) && config_file.is_some() {
        return Err(CliError::new("Command error", Some("Conflicting options"), None));
    }
    match config_file {
        Some(c) => Ok(get_modification_config_from_file(c)),
        None => get_modification_config_from_cmd_options(replace, remove),
    }
}

/// Round trip: a modification request built from inline flags equals
/// one loaded from a file whose parsed content is equivalent — the same
/// replace pairs and the same remove list — whatever force value the
/// file held, and in both the confirmation bypass ends up set.
pub proof fn lemma_modification_round_trip(
    m1: Modification,
    m2: Modification,
    replace: Option<Vec<String>>,
    remove: Option<Vec<String>>,
    file: Modification,
)
    requires
        mod_built_from_cmd(m1, replace, remove),
        mod_forced_from_file(m2, file),
        match replace {
            None => file.replace is None,
            Some(v) => file.replace matches Some(p) && pairs_match(p.deep_view(), v.deep_view()),
        },
        file.remove.deep_view() == remove.deep_view(),
    ensures
        m1.dv() == m2.dv(),
        m1.force == Some(true),
        m2.force == Some(true),
{
    match replace {
        None => {
        },
        Some(v) => {
            let p1 = m1.replace->Some_0.deep_view();
            let p2 = file.replace->Some_0.deep_view();
            assert forall|i: int| 0 <= i < p1.len() implies p1[i] == p2[i] by {
                lemma_pair_splits_unique(p1[i], p2[i], v.deep_view()[i]);
            }
            assert(p1 =~= p2);
        },
    }
}

} // verus!
