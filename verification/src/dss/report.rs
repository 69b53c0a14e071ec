use vstd::prelude::*;

use crate::dss::json::{items_model, json_model, lemma_items_model, Json, JsonModel};

verus! {

/// What the client keeps of the validation of one signature.
#[derive(Debug, PartialEq, Eq)]
pub struct ValidationResult {
    /// The main indication (`TOTAL_PASSED`, `INDETERMINATE`, ...); `UNKNOWN`
    /// when the report gives none.
    pub indication: String,
    /// The sub-indication, when the report gives a non-empty one.
    pub sub_indication: Option<String>,
    /// The signature format, when the report gives a non-empty one.
    pub sig_format: Option<String>,
    /// The error messages of the AdES validation details.
    pub errors: Vec<String>,
    /// The warning messages of the AdES validation details.
    pub warnings: Vec<String>,
}

/// The model of a [`ValidationResult`].
pub struct ReportModel {
    pub indication: Seq<char>,
    pub sub_indication: Option<Seq<char>>,
    pub sig_format: Option<Seq<char>>,
    pub errors: Seq<Seq<char>>,
    pub warnings: Seq<Seq<char>>,
}

/// The texts of a sequence of strings.
pub open spec fn strings_model(strings: Seq<String>) -> Seq<Seq<char>> {
    strings.map_values(|s: String| s@)
}

/// The text of an optional string.
pub open spec fn opt_string_model(s: Option<String>) -> Option<Seq<char>> {
    match s {
        Some(s) => Some(s@),
        None => None,
    }
}

impl View for ValidationResult {
    type V = ReportModel;

    open spec fn view(&self) -> ReportModel {
        ReportModel {
            indication: self.indication@,
            sub_indication: opt_string_model(self.sub_indication),
            sig_format: opt_string_model(self.sig_format),
            errors: strings_model(self.errors@),
            warnings: strings_model(self.warnings@),
        }
    }
}

/// Why a response is not a simple report with a signature in it.
#[derive(Debug, Clone, Copy, PartialEq, Eq, Structural)]
pub enum ReportError {
    /// `SimpleReport.signatureOrTimestampOrEvidenceRecord` is missing or not an array.
    MissingSignatureList,
    /// The list of signatures, timestamps and evidence records is empty.
    NoSignatures,
    /// No entry of that list is a signature.
    NoSignatureEntry,
}

impl ReportError {
    /// The message shown to the user.
    pub fn message(&self) -> (res: String)
        ensures
            res@ == self.spec_message(),
    {
        match self {
            ReportError::MissingSignatureList => String::from_str(
                "respuesta inesperada: falta SimpleReport.signatureOrTimestampOrEvidenceRecord",
            ),
            ReportError::NoSignatures => String::from_str("DSS no encontró ninguna firma en el documento"),
            ReportError::NoSignatureEntry => String::from_str("no Signature entry found in SimpleReport"),
        }
    }

    /// The message of each error.
    pub open spec fn spec_message(&self) -> Seq<char> {
        match self {
            ReportError::MissingSignatureList =>
                "respuesta inesperada: falta SimpleReport.signatureOrTimestampOrEvidenceRecord"@,
            ReportError::NoSignatures => "DSS no encontró ninguna firma en el documento"@,
            ReportError::NoSignatureEntry => "no Signature entry found in SimpleReport"@,
        }
    }
}

/// The member `key` of `v` when it is a non-empty string.
pub open spec fn spec_str_field(v: JsonModel, key: Seq<char>) -> Option<Seq<char>> {
    match v.get(key) {
        Some(field) => match field.as_str() {
            Some(s) => if s.len() > 0 { Some(s) } else { None },
            None => None,
        },
        None => None,
    }
}

/// The texts of the string members `value` of the items, in order; items
/// without one are skipped.
pub open spec fn string_values(items: Seq<JsonModel>) -> Seq<Seq<char>>
    decreases items.len(),
{
    if items.len() == 0 {
        Seq::empty()
    } else {
        let rest = string_values(items.drop_last());
        match items.last().get("value"@) {
            Some(field) => match field.as_str() {
                Some(s) => rest.push(s),
                None => rest,
            },
            None => rest,
        }
    }
}

/// The texts listed under `v.parent.child` (an array of `{ "value": ... }`);
/// empty when that path does not lead to an array.
pub open spec fn spec_nested_string_array(v: JsonModel, parent: Seq<char>, child: Seq<char>) -> Seq<Seq<char>> {
    match v.get(parent) {
        Some(p) => match p.get(child) {
            Some(a) => match a.as_array() {
                Some(items) => string_values(items),
                None => Seq::empty(),
            },
            None => Seq::empty(),
        },
        None => Seq::empty(),
    }
}

/// The first item that has a member `Signature`, and that member.
pub open spec fn first_signature(items: Seq<JsonModel>) -> Option<JsonModel>
    decreases items.len(),
{
    if items.len() == 0 {
        None
    } else {
        match items[0].get("Signature"@) {
            Some(sig) => Some(sig),
            None => first_signature(items.drop_first()),
        }
    }
}

/// The list `SimpleReport.signatureOrTimestampOrEvidenceRecord` of a response.
pub open spec fn signature_list(response: JsonModel) -> Option<Seq<JsonModel>> {
    match response.get("SimpleReport"@) {
        Some(report) => match report.get("signatureOrTimestampOrEvidenceRecord"@) {
            Some(list) => list.as_array(),
            None => None,
        },
        None => None,
    }
}

/// What the client reads of the `Signature` member of a simple report.
pub open spec fn report_of_signature(sig: JsonModel) -> ReportModel {
    ReportModel {
        indication: match spec_str_field(sig, "Indication"@) {
            Some(s) => s,
            None => "UNKNOWN"@,
        },
        sub_indication: spec_str_field(sig, "SubIndication"@),
        sig_format: spec_str_field(sig, "SignatureFormat"@),
        errors: spec_nested_string_array(sig, "AdESValidationDetails"@, "Error"@),
        warnings: spec_nested_string_array(sig, "AdESValidationDetails"@, "Warning"@),
    }
}

/// How the client reads the response of the DSS REST service:
/// `{ "SimpleReport": { "signatureOrTimestampOrEvidenceRecord": [ { "Signature": { ... } } ] } }`.
pub open spec fn spec_parse_simple_report(response: JsonModel) -> Result<ReportModel, ReportError> {
    match signature_list(response) {
        None => Err(ReportError::MissingSignatureList),
        Some(items) => if items.len() == 0 {
            Err(ReportError::NoSignatures)
        } else {
            match first_signature(items) {
                None => Err(ReportError::NoSignatureEntry),
                Some(sig) => Ok(report_of_signature(sig)),
            }
        },
    }
}

/// The member `key` of `v` when it is a non-empty string.
pub fn str_field<'a>(v: &'a Json, key: &str) -> (res: Option<&'a str>)
    ensures
        match res {
            Some(s) => spec_str_field(v@, key@) == Some(s@),
            None => spec_str_field(v@, key@) is None,
        },
{
    match v.get(key) {
        Some(field) => match field.as_str() {
            Some(s) => if s.is_empty() { None } else { Some(s) },
            None => None,
        },
        None => None,
    }
}

/// The texts listed under `v.parent_key.child_key`, an array of
/// `{ "value": "..." }`; items without a string `value` are skipped, and the
/// result is empty when the path does not lead to an array.
pub fn nested_string_array(v: &Json, parent_key: &str, child_key: &str) -> (res: Vec<String>)
    ensures
        strings_model(res@) == spec_nested_string_array(v@, parent_key@, child_key@),
{
    let mut out: Vec<String> = Vec::new();
    let parent = match v.get(parent_key) {
        Some(p) => p,
        None => return out,
    };
    let child = match parent.get(child_key) {
        Some(c) => c,
        None => return out,
    };
    let items = match child.as_array() {
        Some(items) => items,
        None => return out,
    };
    let ghost model = items_model(items@);
    proof {
        lemma_items_model(items@);
        assert(model.take(0) =~= Seq::<JsonModel>::empty());
    }
    let mut i: usize = 0;
    while i < items.len()
        invariant
            0 <= i <= items.len(),
            model == items_model(items@),
            model.len() == items.len(),
            forall|j: int| 0 <= j < items.len() ==> #[trigger] model[j] == json_model(items@[j]),
            strings_model(out@) == string_values(model.take(i as int)),
        decreases items.len() - i,
    {
        assert(model.take(i + 1).drop_last() =~= model.take(i as int));
        assert(model.take(i + 1).last() == items@[i as int]@);
        let ghost before = out@;
        match items[i].get("value") {
            Some(field) => match field.as_str() {
                Some(s) => {
                    out.push(s.to_owned());
                    assert(strings_model(out@) =~= strings_model(before).push(s@));
                },
                None => {},
            },
            None => {},
        }
        i = i + 1;
    }
    assert(model.take(items.len() as int) =~= model);
    out
}

/// Reads the simple report of a DSS validation: the first signature of
/// `SimpleReport.signatureOrTimestampOrEvidenceRecord`, its indication (or
/// `UNKNOWN`), sub-indication, format, errors and warnings.
pub fn parse_simple_report(response: &Json) -> (res: Result<ValidationResult, ReportError>)
    ensures
        match res {
            Ok(r) => spec_parse_simple_report(response@) == Ok::<ReportModel, ReportError>(r@),
            Err(e) => spec_parse_simple_report(response@) == Err::<ReportModel, ReportError>(e),
        },
{
    let list = match response.get("SimpleReport") {
        Some(report) => report.get("signatureOrTimestampOrEvidenceRecord"),
        None => None,
    };
    let sigs = match list {
        Some(l) => l.as_array(),
        None => None,
    };
    let sigs = match sigs {
        Some(s) => s,
        None => return Err(ReportError::MissingSignatureList),
    };
    let ghost model = items_model(sigs@);
    proof {
        lemma_items_model(sigs@);
    }
    if sigs.len() == 0 {
        return Err(ReportError::NoSignatures);
    }
    let mut found: Option<&Json> = None;
    let mut i: usize = 0;
    proof {
        assert(model.skip(0) =~= model);
    }
    while i < sigs.len()
        invariant_except_break
            0 <= i <= sigs.len(),
            found is None,
            first_signature(model) == first_signature(model.skip(i as int)),
        invariant
            model == items_model(sigs@),
            model.len() == sigs.len(),
            forall|j: int| 0 <= j < sigs.len() ==> #[trigger] model[j] == json_model(sigs@[j]),
        ensures
            match found {
                Some(sig) => first_signature(model) == Some(sig@),
                None => first_signature(model) is None,
            },
        decreases sigs.len() - i,
    {
        assert(model.skip(i as int)[0] == sigs@[i as int]@);
        match sigs[i].get("Signature") {
            Some(sig) => {
                found = Some(sig);
                break;
            },
            None => {},
        }
        assert(model.skip(i as int).drop_first() =~= model.skip(i + 1));
        i = i + 1;
    }
    let sig = match found {
        Some(sig) => sig,
        None => return Err(ReportError::NoSignatureEntry),
    };
    let indication = match str_field(sig, "Indication") {
        Some(s) => s.to_owned(),
        None => String::from_str("UNKNOWN"),
    };
    let sub_indication = match str_field(sig, "SubIndication") {
        Some(s) => Some(s.to_owned()),
        None => None,
    };
    let sig_format = match str_field(sig, "SignatureFormat") {
        Some(s) => Some(s.to_owned()),
        None => None,
    };
    let errors = nested_string_array(sig, "AdESValidationDetails", "Error");
    let warnings = nested_string_array(sig, "AdESValidationDetails", "Warning");
    let result = ValidationResult { indication, sub_indication, sig_format, errors, warnings };
    assert(result@ == report_of_signature(sig@));
    Ok(result)
}

/// Whether DSS accepted the signature: the indication is `TOTAL_PASSED`.
pub open spec fn spec_is_accepted(r: ReportModel) -> bool {
    r.indication == "TOTAL_PASSED"@
}

/// Whether DSS accepted the signature, that is, whether its indication is
/// `TOTAL_PASSED`; the client exits with status 0 exactly then.
pub fn is_accepted(result: &ValidationResult) -> (res: bool)
    ensures
        res == spec_is_accepted(result@),
{
    let passed = String::from_str("TOTAL_PASSED");
    result.indication == passed
}

/// The line that shows the signature format.
pub open spec fn format_line(f: Seq<char>) -> Seq<char> {
    "Formato:       "@ + f
}

/// The line that shows the indication.
pub open spec fn indication_line(i: Seq<char>) -> Seq<char> {
    "Indicación:    "@ + i
}

/// The line that shows the sub-indication.
pub open spec fn sub_indication_line(s: Seq<char>) -> Seq<char> {
    "Sub-indicación: "@ + s
}

/// The line that shows an error.
pub open spec fn error_line(e: Seq<char>) -> Seq<char> {
    "ERROR:   "@ + e
}

/// The line that shows a warning.
pub open spec fn warning_line(w: Seq<char>) -> Seq<char> {
    "WARNING: "@ + w
}

/// The lines that show a validation result: the format (if known), the
/// indication, the sub-indication (if any), then each error and each warning.
pub open spec fn spec_report_lines(r: ReportModel) -> Seq<Seq<char>> {
    (match r.sig_format {
        Some(f) => seq![format_line(f)],
        None => Seq::empty(),
    }) + seq![indication_line(r.indication)] + (match r.sub_indication {
        Some(s) => seq![sub_indication_line(s)],
        None => Seq::empty(),
    }) + r.errors.map_values(|e: Seq<char>| error_line(e)) + r.warnings.map_values(
        |w: Seq<char>| warning_line(w),
    )
}

/// Appends `prefix + item` for each item, in order.
fn push_prefixed(lines: &mut Vec<String>, prefix: &str, items: &Vec<String>)
    ensures
        strings_model(final(lines)@) == strings_model(old(lines)@) + strings_model(items@).map_values(
            |s: Seq<char>| prefix@ + s,
        ),
{
    let ghost start = strings_model(lines@);
    let mut i: usize = 0;
    while i < items.len()
        invariant
            0 <= i <= items.len(),
            strings_model(lines@) == start + strings_model(items@).take(i as int).map_values(
                |s: Seq<char>| prefix@ + s,
            ),
        decreases items.len() - i,
    {
        let line = String::from_str(prefix).concat(items[i].as_str());
        let ghost before = lines@;
        lines.push(line);
        assert(strings_model(lines@) =~= strings_model(before).push(line@));
        assert(strings_model(items@).take(i + 1).map_values(|s: Seq<char>| prefix@ + s) =~= strings_model(
            items@,
        ).take(i as int).map_values(|s: Seq<char>| prefix@ + s).push(prefix@ + items@[i as int]@));
        i = i + 1;
    }
    assert(strings_model(items@).take(items.len() as int) =~= strings_model(items@));
}

/// The lines that show a validation result, as the client prints them.
pub fn report_lines(result: &ValidationResult) -> (res: Vec<String>)
    ensures
        strings_model(res@) == spec_report_lines(result@),
{
    let mut lines: Vec<String> = Vec::new();
    match &result.sig_format {
        Some(f) => {
            lines.push(String::from_str("Formato:       ").concat(f.as_str()));
        },
        None => {},
    }
    lines.push(String::from_str("Indicación:    ").concat(result.indication.as_str()));
    match &result.sub_indication {
        Some(s) => {
            lines.push(String::from_str("Sub-indicación: ").concat(s.as_str()));
        },
        None => {},
    }
    let ghost head = strings_model(lines@);
    assert(head =~= (match result@.sig_format {
        Some(f) => seq![format_line(f)],
        None => Seq::<Seq<char>>::empty(),
    }) + seq![indication_line(result@.indication)] + (match result@.sub_indication {
        Some(s) => seq![sub_indication_line(s)],
        None => Seq::<Seq<char>>::empty(),
    }));
    push_prefixed(&mut lines, "ERROR:   ", &result.errors);
    push_prefixed(&mut lines, "WARNING: ", &result.warnings);
    assert(strings_model(result.errors@).map_values(|s: Seq<char>| "ERROR:   "@ + s) =~= result@.errors.map_values(
        |e: Seq<char>| error_line(e),
    ));
    assert(strings_model(result.warnings@).map_values(|s: Seq<char>| "WARNING: "@ + s) =~= result@.warnings.map_values(
        |w: Seq<char>| warning_line(w),
    ));
    lines
}

/// The first item with a `Signature` member is the one that is read.
proof fn lemma_first_signature_at(items: Seq<JsonModel>, i: int, sig: JsonModel)
    requires
        0 <= i < items.len(),
        items[i].get("Signature"@) == Some(sig),
        forall|j: int| 0 <= j < i ==> (#[trigger] items[j]).get("Signature"@) is None,
    ensures
        first_signature(items) == Some(sig),
    decreases i,
{
    if i > 0 {
        let rest = items.drop_first();
        assert forall|j: int| 0 <= j < i - 1 implies (#[trigger] rest[j]).get("Signature"@) is None by {
            assert(rest[j] == items[j + 1]);
        }
        lemma_first_signature_at(rest, i - 1, sig);
    }
}

/// When every item carries a string `value`, each of them is kept, in order.
proof fn lemma_string_values_all(items: Seq<JsonModel>)
    requires
        forall|k: int| 0 <= k < items.len() ==> (#[trigger] items[k]).get("value"@) matches Some(JsonModel::Str(_)),
    ensures
        string_values(items).len() == items.len(),
        forall|k: int| 0 <= k < items.len() ==> (#[trigger] items[k]).get("value"@) == Some(JsonModel::Str(string_values(items)[k])),
    decreases items.len(),
{
    if items.len() > 0 {
        let init = items.drop_last();
        assert forall|k: int| 0 <= k < init.len() implies (#[trigger] init[k]).get("value"@) matches Some(JsonModel::Str(_)) by {
            assert(init[k] == items[k]);
        }
        lemma_string_values_all(init);
        assert(items.last() == items[items.len() - 1]);
        assert forall|k: int| 0 <= k < items.len() implies (#[trigger] items[k]).get("value"@) == Some(JsonModel::Str(string_values(items)[k])) by {
            if k < items.len() - 1 {
                assert(init[k] == items[k]);
            }
        }
    }
}

/// Law: the report is read from the first entry of
/// `SimpleReport.signatureOrTimestampOrEvidenceRecord` that has a `Signature`
/// member, and each field comes from the member of the same name, whatever
/// else the entry holds: a non-empty string `Indication` is the indication
/// (otherwise `UNKNOWN`), a non-empty string `SubIndication` is the
/// sub-indication and a non-empty string `SignatureFormat` the format (each
/// absent otherwise); without `AdESValidationDetails` there are no errors and
/// no warnings.
pub proof fn law_report_reads_first_signature(response: JsonModel, items: Seq<JsonModel>, i: int, sig: JsonModel)
    requires
        response.get("SimpleReport"@) matches Some(report) && report.get("signatureOrTimestampOrEvidenceRecord"@)
            == Some(JsonModel::Array(items)),
        0 <= i < items.len(),
        items[i].get("Signature"@) == Some(sig),
        forall|j: int| 0 <= j < i ==> (#[trigger] items[j]).get("Signature"@) is None,
    ensures
        spec_parse_simple_report(response) matches Ok(m) && {
            &&& match sig.get("Indication"@) {
                Some(JsonModel::Str(s)) => s.len() > 0 ==> m.indication == s,
                _ => true,
            }
            &&& m.indication == "UNKNOWN"@ || (sig.get("Indication"@) == Some(JsonModel::Str(m.indication))
                && m.indication.len() > 0)
            &&& match sig.get("SubIndication"@) {
                Some(JsonModel::Str(s)) => s.len() > 0 ==> m.sub_indication == Some(s),
                _ => true,
            }
            &&& match m.sub_indication {
                Some(s) => sig.get("SubIndication"@) == Some(JsonModel::Str(s)) && s.len() > 0,
                None => true,
            }
            &&& match sig.get("SignatureFormat"@) {
                Some(JsonModel::Str(s)) => s.len() > 0 ==> m.sig_format == Some(s),
                _ => true,
            }
            &&& match m.sig_format {
                Some(s) => sig.get("SignatureFormat"@) == Some(JsonModel::Str(s)) && s.len() > 0,
                None => true,
            }
            &&& sig.get("AdESValidationDetails"@) is None ==> m.errors.len() == 0 && m.warnings.len() == 0
        },
{
    lemma_first_signature_at(items, i, sig);
}

/// Law: every message listed under `AdESValidationDetails.Error` of the first
/// signature becomes an error of the report, one for one and in order (when
/// each item carries a string `value`).
pub proof fn law_report_lists_every_error(
    response: JsonModel,
    items: Seq<JsonModel>,
    i: int,
    sig: JsonModel,
    details: JsonModel,
    messages: Seq<JsonModel>,
)
    requires
        response.get("SimpleReport"@) matches Some(report) && report.get("signatureOrTimestampOrEvidenceRecord"@)
            == Some(JsonModel::Array(items)),
        0 <= i < items.len(),
        items[i].get("Signature"@) == Some(sig),
        forall|j: int| 0 <= j < i ==> (#[trigger] items[j]).get("Signature"@) is None,
        sig.get("AdESValidationDetails"@) == Some(details),
        details.get("Error"@) == Some(JsonModel::Array(messages)),
        forall|k: int| 0 <= k < messages.len() ==> (#[trigger] messages[k]).get("value"@) matches Some(JsonModel::Str(_)),
    ensures
        spec_parse_simple_report(response) matches Ok(m) && {
            &&& m.errors.len() == messages.len()
            &&& forall|k: int| 0 <= k < messages.len() ==> (#[trigger] messages[k]).get("value"@) == Some(JsonModel::Str(m.errors[k]))
        },
{
    lemma_first_signature_at(items, i, sig);
    lemma_string_values_all(messages);
}

/// Law: every message listed under `AdESValidationDetails.Warning` of the
/// first signature becomes a warning of the report, one for one and in order
/// (when each item carries a string `value`).
pub proof fn law_report_lists_every_warning(
    response: JsonModel,
    items: Seq<JsonModel>,
    i: int,
    sig: JsonModel,
    details: JsonModel,
    messages: Seq<JsonModel>,
)
    requires
        response.get("SimpleReport"@) matches Some(report) && report.get("signatureOrTimestampOrEvidenceRecord"@)
            == Some(JsonModel::Array(items)),
        0 <= i < items.len(),
        items[i].get("Signature"@) == Some(sig),
        forall|j: int| 0 <= j < i ==> (#[trigger] items[j]).get("Signature"@) is None,
        sig.get("AdESValidationDetails"@) == Some(details),
        details.get("Warning"@) == Some(JsonModel::Array(messages)),
        forall|k: int| 0 <= k < messages.len() ==> (#[trigger] messages[k]).get("value"@) matches Some(JsonModel::Str(_)),
    ensures
        spec_parse_simple_report(response) matches Ok(m) && {
            &&& m.warnings.len() == messages.len()
            &&& forall|k: int| 0 <= k < messages.len() ==> (#[trigger] messages[k]).get("value"@) == Some(JsonModel::Str(m.warnings[k]))
        },
{
    lemma_first_signature_at(items, i, sig);
    lemma_string_values_all(messages);
}

/// Law: acceptance depends on the indication alone; two results with the same
/// indication are accepted alike, whatever their format, sub-indication,
/// errors or warnings.
pub proof fn law_acceptance_depends_on_indication_only(r1: ReportModel, r2: ReportModel)
    requires
        r1.indication == r2.indication,
    ensures
        spec_is_accepted(r1) == spec_is_accepted(r2),
{
}

/// Law: a result is accepted exactly when its indication is `TOTAL_PASSED`.
pub proof fn law_accepted_iff_total_passed(r: ReportModel)
    ensures
        r.indication == "TOTAL_PASSED"@ ==> spec_is_accepted(r),
        r.indication != "TOTAL_PASSED"@ ==> !spec_is_accepted(r),
{
}

/// Law: the printed lines are the format line (when the format is known), the
/// indication line, the sub-indication line (when there is one), then one
/// `ERROR:` line per error and one `WARNING:` line per warning, each in the
/// order of the result, and nothing else.
pub proof fn law_report_lines_show_every_message(r: ReportModel)
    ensures
        ({
            let lines = spec_report_lines(r);
            let f: int = if r.sig_format is Some { 1 } else { 0 };
            let h: int = f + 1 + if r.sub_indication is Some { 1int } else { 0int };
            &&& lines.len() == h + r.errors.len() + r.warnings.len()
            &&& match r.sig_format {
                Some(fmt) => lines[0] == "Formato:       "@ + fmt,
                None => true,
            }
            &&& lines[f] == "Indicación:    "@ + r.indication
            &&& match r.sub_indication {
                Some(sub) => lines[f + 1] == "Sub-indicación: "@ + sub,
                None => true,
            }
            &&& forall|k: int| 0 <= k < r.errors.len() ==> lines[h + k] == "ERROR:   "@ + #[trigger] r.errors[k]
            &&& forall|k: int| 0 <= k < r.warnings.len() ==> lines[h + r.errors.len() + k] == "WARNING: "@
                + #[trigger] r.warnings[k]
        }),
{
    let lines = spec_report_lines(r);
    let head = (match r.sig_format {
        Some(fmt) => seq![format_line(fmt)],
        None => Seq::<Seq<char>>::empty(),
    }) + seq![indication_line(r.indication)] + (match r.sub_indication {
        Some(s) => seq![sub_indication_line(s)],
        None => Seq::<Seq<char>>::empty(),
    });
    let errs = r.errors.map_values(|e: Seq<char>| error_line(e));
    let warns = r.warnings.map_values(|w: Seq<char>| warning_line(w));
    assert(lines == head + errs + warns);
    let f: int = if r.sig_format is Some { 1 } else { 0 };
    let h: int = f + 1 + if r.sub_indication is Some { 1int } else { 0int };
    assert(head.len() == h);
    assert forall|k: int| 0 <= k < r.errors.len() implies lines[h + k] == "ERROR:   "@ + #[trigger] r.errors[k] by {
        assert(lines[h + k] == errs[k]);
    }
    assert forall|k: int| 0 <= k < r.warnings.len() implies lines[h + r.errors.len() + k] == "WARNING: "@
        + #[trigger] r.warnings[k] by {
        assert(lines[h + r.errors.len() + k] == warns[k]);
    }
}

} // verus!
