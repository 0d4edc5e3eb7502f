//! The `MediaListTypeOptions` struct.
use vstd::prelude::*;

use crate::json::{Json, absent, bool_fits, field, fits_bool, fits_strings, flag_field, flag_of, get, member_or_null, object_of, object_or_null, strings_field, strings_fits, strings_of};
use crate::error::Error;
use crate::text::or_else;

verus! {

/// The options of one of a user's lists.
#[derive(Debug, Clone, PartialEq, Default)]
pub struct MediaListTypeOptions {
    /// The order of the sections.
    pub section_order: Vec<String>,
    /// Whether the completed section is split by format.
    pub split_completed_section_by_format: bool,
    /// The custom lists.
    pub custom_lists: Vec<String>,
    /// The advanced scoring categories.
    pub advanced_scoring: Vec<String>,
    /// Whether advanced scoring is enabled.
    pub advanced_scoring_enabled: bool,
}

impl MediaListTypeOptions {
    /// Whether the decoded fields of this list options are what the object `j` gives;
    /// an absent or `null` member leaves its field unset or empty.
    pub open spec fn matches_json(self, j: Json) -> bool {
        &&& self.section_order@ == or_else(strings_of(field(j, "sectionOrder"@)), Seq::empty())
        &&& self.split_completed_section_by_format == flag_of(field(j, "splitCompletedSectionByFormat"@))
        &&& self.custom_lists@ == or_else(strings_of(field(j, "customLists"@)), Seq::empty())
        &&& self.advanced_scoring@ == or_else(strings_of(field(j, "advancedScoring"@)), Seq::empty())
        &&& self.advanced_scoring_enabled == flag_of(field(j, "advancedScoringEnabled"@))
    }

    /// Whether `j` has the shape of a list options: an object or `null` whose members
    /// are each absent, `null` or of their expected type.
    pub open spec fn well_typed(j: Json) -> bool {
        &&& object_or_null(j)
        &&& fits_strings(field(j, "sectionOrder"@))
        &&& fits_bool(field(j, "splitCompletedSectionByFormat"@))
        &&& fits_strings(field(j, "customLists"@))
        &&& fits_strings(field(j, "advancedScoring"@))
        &&& fits_bool(field(j, "advancedScoringEnabled"@))
    }

    /// Whether a member is absent, or has the shape of a list options.
    pub open spec fn fits(v: Option<Json>) -> bool {
        match v {
            None => true,
            Some(x) => MediaListTypeOptions::well_typed(x),
        }
    }

    /// Whether an array item is a list options object.
    pub open spec fn item_ok(j: Json) -> bool {
        j is Object && MediaListTypeOptions::well_typed(j)
    }

    /// Whether a member is absent, `null`, or an array of list options objects.
    pub open spec fn fits_list(v: Option<Json>) -> bool {
        ||| absent(v)
        ||| (v matches Some(Json::Array(items)) && forall|i: int|
            0 <= i < items@.len() ==> MediaListTypeOptions::item_ok(#[trigger] items@[i]))
    }

    /// Decodes a list options object; a member of the wrong type is a `DecodeError`.
    pub fn from_json(j: &Json) -> (r: Result<MediaListTypeOptions, Error>)
        ensures
            r is Ok <==> MediaListTypeOptions::well_typed(*j),
            r matches Ok(x) ==> x.matches_json(*j),
            r matches Err(e) ==> e is DecodeError,
    {
        match j {
            Json::Object(_) => {},
            Json::Null => {},
            _ => return Err(Error::DecodeError("object".to_string())),
        }
        if !strings_fits(j, "sectionOrder") {
            return Err(Error::DecodeError("sectionOrder".to_string()));
        }
        let f_section_order = match strings_field(j, "sectionOrder") {
            Some(v) => v,
            None => Vec::new(),
        };
        if !bool_fits(j, "splitCompletedSectionByFormat") {
            return Err(Error::DecodeError("splitCompletedSectionByFormat".to_string()));
        }
        let f_split_completed_section_by_format = flag_field(j, "splitCompletedSectionByFormat");
        if !strings_fits(j, "customLists") {
            return Err(Error::DecodeError("customLists".to_string()));
        }
        let f_custom_lists = match strings_field(j, "customLists") {
            Some(v) => v,
            None => Vec::new(),
        };
        if !strings_fits(j, "advancedScoring") {
            return Err(Error::DecodeError("advancedScoring".to_string()));
        }
        let f_advanced_scoring = match strings_field(j, "advancedScoring") {
            Some(v) => v,
            None => Vec::new(),
        };
        if !bool_fits(j, "advancedScoringEnabled") {
            return Err(Error::DecodeError("advancedScoringEnabled".to_string()));
        }
        let f_advanced_scoring_enabled = flag_field(j, "advancedScoringEnabled");
        Ok(MediaListTypeOptions {
            section_order: f_section_order,
            split_completed_section_by_format: f_split_completed_section_by_format,
            custom_lists: f_custom_lists,
            advanced_scoring: f_advanced_scoring,
            advanced_scoring_enabled: f_advanced_scoring_enabled,
        })
    }

    /// Decodes the member `key` of `j`; an absent member decodes as `null`.
    pub fn from_member(j: &Json, key: &str) -> (r: Result<MediaListTypeOptions, Error>)
        ensures
            r is Ok <==> MediaListTypeOptions::fits(field(*j, key@)),
            r matches Ok(x) ==> x.matches_json(member_or_null(*j, key@)),
            r matches Err(e) ==> e is DecodeError,
    {
        match get(j, key) {
            Some(v) => match MediaListTypeOptions::from_json(v) {
                Ok(x) => Ok(x),
                Err(_) => Err(Error::DecodeError(key.to_string())),
            },
            None => MediaListTypeOptions::from_json(&Json::Null),
        }
    }

    /// Decodes the member `key` of `j` when it is an object; none when it is
    /// absent or `null`.
    pub fn from_optional_member(j: &Json, key: &str) -> (r: Result<Option<MediaListTypeOptions>, Error>)
        ensures
            r is Ok <==> MediaListTypeOptions::fits(field(*j, key@)),
            r matches Ok(o) ==> match object_of(field(*j, key@)) {
                Some(x) => o matches Some(y) && y.matches_json(x),
                None => o is None,
            },
            r matches Err(e) ==> e is DecodeError,
    {
        match get(j, key) {
            Some(v) => match v {
                Json::Object(_) => match MediaListTypeOptions::from_json(v) {
                    Ok(x) => Ok(Some(x)),
                    Err(_) => Err(Error::DecodeError(key.to_string())),
                },
                Json::Null => Ok(None),
                _ => Err(Error::DecodeError(key.to_string())),
            },
            None => Ok(None),
        }
    }

    /// Whether each of `l` is what the item at its index decodes to.
    pub open spec fn seq_matches(l: Seq<MediaListTypeOptions>, items: Seq<Json>) -> bool {
        &&& l.len() == items.len()
        &&& forall|i: int| 0 <= i < items.len() ==> (#[trigger] l[i]).matches_json(items[i])
    }

    /// Decodes the member `key` of `j` as a list of objects; none when it is
    /// absent or `null`.
    pub fn list_field(j: &Json, key: &str) -> (r: Result<Option<Vec<MediaListTypeOptions>>, Error>)
        ensures
            r is Ok <==> MediaListTypeOptions::fits_list(field(*j, key@)),
            r matches Ok(o) ==> match field(*j, key@) {
                Some(Json::Array(items)) => o matches Some(l) && MediaListTypeOptions::seq_matches(l@, items@),
                _ => o is None,
            },
            r matches Err(e) ==> e is DecodeError,
    {
        match get(j, key) {
            Some(Json::Array(items)) => {
                let mut out: Vec<MediaListTypeOptions> = Vec::new();
                let mut i: usize = 0;
                while i < items.len()
                    invariant
                        i <= items@.len(),
                        field(*j, key@) == Some(Json::Array(*items)),
                        out@.len() == i,
                        forall|k: int| 0 <= k < i ==> (#[trigger] out@[k]).matches_json(items@[k]),
                        forall|k: int| 0 <= k < i ==> MediaListTypeOptions::item_ok(#[trigger] items@[k]),
                    decreases items.len() - i,
                {
                    match &items[i] {
                        Json::Object(_) => match MediaListTypeOptions::from_json(&items[i]) {
                            Ok(x) => out.push(x),
                            Err(_) => {
                                assert(!MediaListTypeOptions::item_ok(items@[i as int]));
                                assert(!absent(field(*j, key@)));
                                assert(field(*j, key@) matches Some(Json::Array(its)) && its@ == items@);
                                return Err(Error::DecodeError(key.to_string()));
                            },
                        },
                        _ => {
                            assert(!MediaListTypeOptions::item_ok(items@[i as int]));
                            assert(!absent(field(*j, key@)));
                                assert(field(*j, key@) matches Some(Json::Array(its)) && its@ == items@);
                            return Err(Error::DecodeError(key.to_string()));
                        },
                    }
                    i = i + 1;
                }
                Ok(Some(out))
            },
            Some(Json::Null) => Ok(None),
            None => Ok(None),
            _ => Err(Error::DecodeError(key.to_string())),
        }
    }

    /// Whether two list optionss hold the same decoded values, field by field (strings by
    /// their characters).
    pub open spec fn agrees(self, o: MediaListTypeOptions) -> bool {
        &&& self.section_order@ == o.section_order@
        &&& self.split_completed_section_by_format == o.split_completed_section_by_format
        &&& self.custom_lists@ == o.custom_lists@
        &&& self.advanced_scoring@ == o.advanced_scoring@
        &&& self.advanced_scoring_enabled == o.advanced_scoring_enabled
    }

    /// Decoding one object twice gives values that agree.
    pub proof fn lemma_decode_agrees(a: MediaListTypeOptions, b: MediaListTypeOptions, j: Json)
        requires
            a.matches_json(j),
            b.matches_json(j),
        ensures
            a.agrees(b),
    {
    }

    /// Whether two lists hold values that agree, index by index.
    pub open spec fn seq_agrees(l1: Seq<MediaListTypeOptions>, l2: Seq<MediaListTypeOptions>) -> bool {
        &&& l1.len() == l2.len()
        &&& forall|i: int| 0 <= i < l1.len() ==> (#[trigger] l1[i]).agrees(l2[i])
    }

    /// Decoding one array twice gives lists that agree.
    pub proof fn lemma_seq_agrees(l1: Seq<MediaListTypeOptions>, l2: Seq<MediaListTypeOptions>, items: Seq<Json>)
        requires
            MediaListTypeOptions::seq_matches(l1, items),
            MediaListTypeOptions::seq_matches(l2, items),
        ensures
            MediaListTypeOptions::seq_agrees(l1, l2),
    {
        assert forall|i: int| 0 <= i < l1.len() implies (#[trigger] l1[i]).agrees(l2[i]) by {
            MediaListTypeOptions::lemma_decode_agrees(l1[i], l2[i], items[i]);
        }
    }
}

} // verus!
