//! The entity types that are synchronised, and their key tables. Each table
//! is written out by hand: a local column, its remote key, its type.

use vstd::prelude::*;
use crate::sync::mapper::{ColumnKind, KeyMapping, avoids_reserved_keys, distinct_remote_keys};

verus! {

/// The line of a text column that may be null.
pub open spec fn text(column: &'static str, key: &'static str) -> KeyMapping {
    KeyMapping { column, key, kind: ColumnKind::Text, required: false }
}

/// The line of a text column that refuses null.
pub open spec fn required_text(column: &'static str, key: &'static str) -> KeyMapping {
    KeyMapping { column, key, kind: ColumnKind::Text, required: true }
}

/// The line of a boolean column that may be null.
pub open spec fn flag(column: &'static str, key: &'static str) -> KeyMapping {
    KeyMapping { column, key, kind: ColumnKind::Flag, required: false }
}

impl KeyMapping {
    /// The line of a text column that may be null.
    pub fn text(column: &'static str, key: &'static str) -> (line: KeyMapping)
        ensures
            line == self::text(column, key),
    {
        KeyMapping { column, key, kind: ColumnKind::Text, required: false }
    }

    /// The line of a text column that refuses null.
    pub fn required_text(column: &'static str, key: &'static str) -> (line: KeyMapping)
        ensures
            line == self::required_text(column, key),
    {
        KeyMapping { column, key, kind: ColumnKind::Text, required: true }
    }

    /// The line of a boolean column that may be null.
    pub fn flag(column: &'static str, key: &'static str) -> (line: KeyMapping)
        ensures
            line == self::flag(column, key),
    {
        KeyMapping { column, key, kind: ColumnKind::Flag, required: false }
    }
}

/// The key table of offenders.
pub open spec fn offender_keys() -> Seq<KeyMapping> {
    seq![
        required_text("full_name", "fullName"),
        text("national_id", "nationalId"),
        text("date_of_birth", "dateOfBirth"),
        text("gender", "gender"),
        text("notes", "notes"),
        text("penalty", "penalty"),
        text("penalty_notes", "penaltyNotes"),
        text("alias", "alias"),
        text("nationality", "nationality"),
        text("marital_status", "maritalStatus"),
        text("occupation", "occupation"),
        text("address", "address"),
        flag("first_offender", "firstOffender"),
        text("criminal_history", "criminalHistory"),
        text("known_associates", "knownAssociates"),
        text("arresting_officer", "arrestingOfficer"),
        text("place_of_arrest", "placeOfArrest"),
        text("arrest_date", "arrestDate"),
        text("case_number", "caseNumber"),
        text("eye_color", "eyeColor"),
        text("hair_color", "hairColor"),
        text("phone_number", "phoneNumber"),
        text("emergency_contact_name", "emergencyContactName"),
        text("emergency_contact_phone", "emergencyContactPhone"),
        text("emergency_contact_relationship", "emergencyContactRelationship"),
        text("legal_representation", "legalRepresentation"),
        text("medical_conditions", "medicalConditions"),
        text("risk_level", "riskLevel"),
        text("distinguishing_marks", "distinguishingMarks"),
        text("type", "type"),
        text("status", "status"),
        text("facility", "facility"),
        text("offense_type", "offenseType"),
        text("uploaded_by_id", "uploadedById"),
        text("photo_storage_url", "photoStorageUrl"),
    ]
}

/// The key table of cases.
pub open spec fn case_keys() -> Seq<KeyMapping> {
    seq![
        required_text("title", "title"),
        text("case_number", "caseNumber"),
        required_text("status", "status"),
        required_text("priority", "priority"),
        text("case_type", "CaseType"),
        text("description", "description"),
        text("court_name", "courtName"),
        text("date_filed", "dateFiled"),
        text("date_of_judgment", "dateOfJudgment"),
        text("judge_name", "judgeName"),
        text("complainant_name", "complainantName"),
        text("accused_name", "accusedName"),
        text("charge_description", "chargeDescription"),
        text("applicable_law", "applicableLaw"),
        text("verdict", "verdict"),
        text("sentence", "sentence"),
        text("mitigation_notes", "mitigationNotes"),
        text("prosecution_counsel", "prosecutionCounsel"),
        text("defense_witnesses", "defenseWitnesses"),
        text("prosecution_witnesses", "prosecutionWitnesses"),
        text("evidence_summary", "evidenceSummary"),
        text("appeal_status", "appealStatus"),
        text("location_of_offence", "locationOfOffence"),
        text("hearing_dates", "hearingDates"),
        text("court_assistant", "courtAssistant"),
        text("uploaded_by_id", "uploadedById"),
    ]
}

/// The key table of offenders.
pub fn offender_key_table() -> (table: Vec<KeyMapping>)
    ensures
        table@ == offender_keys(),
{
    vec![
        KeyMapping::required_text("full_name", "fullName"),
        KeyMapping::text("national_id", "nationalId"),
        KeyMapping::text("date_of_birth", "dateOfBirth"),
        KeyMapping::text("gender", "gender"),
        KeyMapping::text("notes", "notes"),
        KeyMapping::text("penalty", "penalty"),
        KeyMapping::text("penalty_notes", "penaltyNotes"),
        KeyMapping::text("alias", "alias"),
        KeyMapping::text("nationality", "nationality"),
        KeyMapping::text("marital_status", "maritalStatus"),
        KeyMapping::text("occupation", "occupation"),
        KeyMapping::text("address", "address"),
        KeyMapping::flag("first_offender", "firstOffender"),
        KeyMapping::text("criminal_history", "criminalHistory"),
        KeyMapping::text("known_associates", "knownAssociates"),
        KeyMapping::text("arresting_officer", "arrestingOfficer"),
        KeyMapping::text("place_of_arrest", "placeOfArrest"),
        KeyMapping::text("arrest_date", "arrestDate"),
        KeyMapping::text("case_number", "caseNumber"),
        KeyMapping::text("eye_color", "eyeColor"),
        KeyMapping::text("hair_color", "hairColor"),
        KeyMapping::text("phone_number", "phoneNumber"),
        KeyMapping::text("emergency_contact_name", "emergencyContactName"),
        KeyMapping::text("emergency_contact_phone", "emergencyContactPhone"),
        KeyMapping::text("emergency_contact_relationship", "emergencyContactRelationship"),
        KeyMapping::text("legal_representation", "legalRepresentation"),
        KeyMapping::text("medical_conditions", "medicalConditions"),
        KeyMapping::text("risk_level", "riskLevel"),
        KeyMapping::text("distinguishing_marks", "distinguishingMarks"),
        KeyMapping::text("type", "type"),
        KeyMapping::text("status", "status"),
        KeyMapping::text("facility", "facility"),
        KeyMapping::text("offense_type", "offenseType"),
        KeyMapping::text("uploaded_by_id", "uploadedById"),
        KeyMapping::text("photo_storage_url", "photoStorageUrl"),
    ]
}

/// The key table of cases.
pub fn case_key_table() -> (table: Vec<KeyMapping>)
    ensures
        table@ == case_keys(),
{
    vec![
        KeyMapping::required_text("title", "title"),
        KeyMapping::text("case_number", "caseNumber"),
        KeyMapping::required_text("status", "status"),
        KeyMapping::required_text("priority", "priority"),
        KeyMapping::text("case_type", "CaseType"),
        KeyMapping::text("description", "description"),
        KeyMapping::text("court_name", "courtName"),
        KeyMapping::text("date_filed", "dateFiled"),
        KeyMapping::text("date_of_judgment", "dateOfJudgment"),
        KeyMapping::text("judge_name", "judgeName"),
        KeyMapping::text("complainant_name", "complainantName"),
        KeyMapping::text("accused_name", "accusedName"),
        KeyMapping::text("charge_description", "chargeDescription"),
        KeyMapping::text("applicable_law", "applicableLaw"),
        KeyMapping::text("verdict", "verdict"),
        KeyMapping::text("sentence", "sentence"),
        KeyMapping::text("mitigation_notes", "mitigationNotes"),
        KeyMapping::text("prosecution_counsel", "prosecutionCounsel"),
        KeyMapping::text("defense_witnesses", "defenseWitnesses"),
        KeyMapping::text("prosecution_witnesses", "prosecutionWitnesses"),
        KeyMapping::text("evidence_summary", "evidenceSummary"),
        KeyMapping::text("appeal_status", "appealStatus"),
        KeyMapping::text("location_of_offence", "locationOfOffence"),
        KeyMapping::text("hearing_dates", "hearingDates"),
        KeyMapping::text("court_assistant", "courtAssistant"),
        KeyMapping::text("uploaded_by_id", "uploadedById"),
    ]
}

/// What tells the keys of a table apart: the length of a key and three of
/// its characters.
pub open spec fn mark(key: Seq<char>) -> (nat, char, char, char) {
    (key.len(), key[0], key[1], key[3])
}

/// The keys of the offender table differ from one another and from the keys
/// that every document carries besides its columns.
pub proof fn offender_keys_are_told_apart()
    ensures
        distinct_remote_keys(offender_keys()),
        avoids_reserved_keys(offender_keys()),
{
    reveal_strlit("fullName");
    reveal_strlit("nationalId");
    reveal_strlit("dateOfBirth");
    reveal_strlit("gender");
    reveal_strlit("notes");
    reveal_strlit("penalty");
    reveal_strlit("penaltyNotes");
    reveal_strlit("alias");
    reveal_strlit("nationality");
    reveal_strlit("maritalStatus");
    reveal_strlit("occupation");
    reveal_strlit("address");
    reveal_strlit("firstOffender");
    reveal_strlit("criminalHistory");
    reveal_strlit("knownAssociates");
    reveal_strlit("arrestingOfficer");
    reveal_strlit("placeOfArrest");
    reveal_strlit("arrestDate");
    reveal_strlit("caseNumber");
    reveal_strlit("eyeColor");
    reveal_strlit("hairColor");
    reveal_strlit("phoneNumber");
    reveal_strlit("emergencyContactName");
    reveal_strlit("emergencyContactPhone");
    reveal_strlit("emergencyContactRelationship");
    reveal_strlit("legalRepresentation");
    reveal_strlit("medicalConditions");
    reveal_strlit("riskLevel");
    reveal_strlit("distinguishingMarks");
    reveal_strlit("type");
    reveal_strlit("status");
    reveal_strlit("facility");
    reveal_strlit("offenseType");
    reveal_strlit("uploadedById");
    reveal_strlit("photoStorageUrl");
    reveal_strlit("courtId");
    reveal_strlit("isDeleted");
    reveal_strlit("version");
    reveal_strlit("updatedAt");
    let table = offender_keys();
    assert forall|i: int, j: int|
        0 <= i < table.len() && 0 <= j < table.len() && i != j implies (#[trigger] table[i]).key@
        != (#[trigger] table[j]).key@ by {
        assert(mark(table[i].key@) != mark(table[j].key@));
    }
    assert forall|i: int| 0 <= i < table.len() implies {
        let key = (#[trigger] table[i]).key@;
        key != "courtId"@ && key != "isDeleted"@ && key != "version"@ && key != "updatedAt"@
    } by {
        let m = mark(table[i].key@);
        assert(m != mark("courtId"@) && m != mark("isDeleted"@) && m != mark("version"@) && m
            != mark("updatedAt"@));
    }
}

/// The keys of the case table differ from one another and from the keys
/// that every document carries besides its columns.
pub proof fn case_keys_are_told_apart()
    ensures
        distinct_remote_keys(case_keys()),
        avoids_reserved_keys(case_keys()),
{
    reveal_strlit("title");
    reveal_strlit("caseNumber");
    reveal_strlit("status");
    reveal_strlit("priority");
    reveal_strlit("CaseType");
    reveal_strlit("description");
    reveal_strlit("courtName");
    reveal_strlit("dateFiled");
    reveal_strlit("dateOfJudgment");
    reveal_strlit("judgeName");
    reveal_strlit("complainantName");
    reveal_strlit("accusedName");
    reveal_strlit("chargeDescription");
    reveal_strlit("applicableLaw");
    reveal_strlit("verdict");
    reveal_strlit("sentence");
    reveal_strlit("mitigationNotes");
    reveal_strlit("prosecutionCounsel");
    reveal_strlit("defenseWitnesses");
    reveal_strlit("prosecutionWitnesses");
    reveal_strlit("evidenceSummary");
    reveal_strlit("appealStatus");
    reveal_strlit("locationOfOffence");
    reveal_strlit("hearingDates");
    reveal_strlit("courtAssistant");
    reveal_strlit("uploadedById");
    reveal_strlit("courtId");
    reveal_strlit("isDeleted");
    reveal_strlit("version");
    reveal_strlit("updatedAt");
    let table = case_keys();
    assert forall|i: int, j: int|
        0 <= i < table.len() && 0 <= j < table.len() && i != j implies (#[trigger] table[i]).key@
        != (#[trigger] table[j]).key@ by {
        assert(mark(table[i].key@) != mark(table[j].key@));
    }
    assert forall|i: int| 0 <= i < table.len() implies {
        let key = (#[trigger] table[i]).key@;
        key != "courtId"@ && key != "isDeleted"@ && key != "version"@ && key != "updatedAt"@
    } by {
        let m = mark(table[i].key@);
        assert(m != mark("courtId"@) && m != mark("isDeleted"@) && m != mark("version"@) && m
            != mark("updatedAt"@));
    }
}

/// The entity types that are synchronised.
#[derive(Clone, Copy, PartialEq, Eq, Structural, Debug)]
pub enum EntityKind {
    Offender,
    Case,
}

impl EntityKind {
    /// The name of the remote collection.
    pub open spec fn collection_name(self) -> Seq<char> {
        match self {
            EntityKind::Offender => "offenders"@,
            EntityKind::Case => "cases"@,
        }
    }

    /// The key table.
    pub open spec fn keys(self) -> Seq<KeyMapping> {
        match self {
            EntityKind::Offender => offender_keys(),
            EntityKind::Case => case_keys(),
        }
    }

    /// The name of the remote collection.
    pub fn collection(&self) -> (name: &'static str)
        ensures
            name@ == self.collection_name(),
    {
        match self {
            EntityKind::Offender => "offenders",
            EntityKind::Case => "cases",
        }
    }

    /// The key table.
    pub fn key_table(&self) -> (table: Vec<KeyMapping>)
        ensures
            table@ == self.keys(),
    {
        match self {
            EntityKind::Offender => offender_key_table(),
            EntityKind::Case => case_key_table(),
        }
    }
}

} // verus!
