//! Loading calibration documents.
//!
//! A document is JSON. Before its fields are read it is held against what the
//! reader would otherwise misread in silence: files of unreasonable size, the
//! retired format, and keys of that format left over in a current document.

use crate::calibration::{
    Calibration, CalibrationError, MAX_CALIBRATION_FILE_SIZE, SCHEMA_VERSION, or, texts,
};
use crate::number::Real64;
use crate::text::{decimal, joined, push_decimal, same};
use vstd::prelude::*;
use vstd::string::*;

verus! {

/// Why a document was not loaded.
#[derive(Clone, Debug)]
pub enum CalibrationLoadError {
    /// The file could not be read.
    Io {
        /// Path of the file.
        path: String,
        /// What went wrong.
        reason: String,
    },
    /// The file is too large.
    TooLarge {
        /// Its size in bytes.
        size: u64,
        /// The limit.
        max: u64,
    },
    /// The text is not JSON of the expected shape.
    Parse(String),
    /// The document has the retired format.
    LegacyMatchFormat,
    /// The document has a key of the retired format, which would be ignored.
    LegacyKey {
        /// The key.
        key: String,
    },
    /// The document's version is not the one this build reads.
    UnsupportedSchemaVersion {
        /// The version it declares.
        found: u32,
    },
    /// A value of the document is invalid.
    Invalid(CalibrationError),
}

impl CalibrationLoadError {
    /// The numbers the message shows, in this order.
    pub open spec fn shown_numbers(&self) -> Seq<Real64> {
        match self {
            CalibrationLoadError::Invalid(e) => e@.numbers(),
            _ => seq![],
        }
    }

    /// The message, with `shown` in place of the numbers.
    pub open spec fn text(&self, shown: Seq<Seq<char>>) -> Seq<char> {
        match self {
            CalibrationLoadError::Io { path, reason } => "cannot read calibration file '"@ + path@
                + "': "@ + reason@,
            CalibrationLoadError::TooLarge { size, max } => "calibration file too large ("@
                + decimal(*size as nat) + " bytes, max "@ + decimal(*max as nat) + ")"@,
            CalibrationLoadError::Parse(e) => "invalid calibration JSON: "@ + e@,
            CalibrationLoadError::LegacyMatchFormat =>
            "legacy 'match' format calibration is no longer supported; re-run `reco calibrate` to produce a current calibration file"@,
            CalibrationLoadError::LegacyKey { key } => "calibration contains the legacy key '"@
                + key@
                + "', which the current schema would silently ignore; rename it to its snake_case equivalent or re-run `reco calibrate`"@,
            CalibrationLoadError::UnsupportedSchemaVersion { found } =>
            "calibration schema version "@ + decimal(*found as nat)
                + " is newer than this reco supports ("@ + decimal(SCHEMA_VERSION as nat)
                + "); upgrade reco or re-run `reco calibrate`"@,
            CalibrationLoadError::Invalid(e) => e@.message(shown),
        }
    }

    /// The numbers the message shows. The caller writes them out.
    pub fn numbers(&self) -> (numbers: Vec<Real64>)
        ensures
            numbers@ == self.shown_numbers(),
    {
        match self {
            CalibrationLoadError::Invalid(e) => e.numbers(),
            _ => {
                let numbers: Vec<Real64> = Vec::new();
                assert(numbers@ =~= self.shown_numbers());
                numbers
            },
        }
    }

    /// The message, with `shown` in place of [`Self::numbers`].
    pub fn message(&self, shown: &Vec<String>) -> (text: String)
        requires
            shown@.len() == self.shown_numbers().len(),
        ensures
            text@ == self.text(texts(shown@)),
    {
        match self {
            CalibrationLoadError::Io { path, reason } => {
                let mut text: String = "cannot read calibration file '".to_owned();
                text.push_str(path.as_str());
                text.push_str("': ");
                text.push_str(reason.as_str());
                text
            },
            CalibrationLoadError::TooLarge { size, max } => {
                let mut text: String = "calibration file too large (".to_owned();
                push_decimal(&mut text, *size);
                text.push_str(" bytes, max ");
                push_decimal(&mut text, *max);
                text.push_str(")");
                text
            },
            CalibrationLoadError::Parse(e) => joined("invalid calibration JSON: ", e.as_str()),
            CalibrationLoadError::LegacyMatchFormat => {
                "legacy 'match' format calibration is no longer supported; re-run `reco calibrate` to produce a current calibration file".to_owned()
            },
            CalibrationLoadError::LegacyKey { key } => {
                let mut text: String = "calibration contains the legacy key '".to_owned();
                text.push_str(key.as_str());
                text.push_str(
                    "', which the current schema would silently ignore; rename it to its snake_case equivalent or re-run `reco calibrate`",
                );
                text
            },
            CalibrationLoadError::UnsupportedSchemaVersion { found } => {
                let mut text: String = "calibration schema version ".to_owned();
                push_decimal(&mut text, *found as u64);
                text.push_str(" is newer than this reco supports (");
                push_decimal(&mut text, SCHEMA_VERSION as u64);
                text.push_str("); upgrade reco or re-run `reco calibrate`");
                text
            },
            CalibrationLoadError::Invalid(e) => e.message(shown),
        }
    }
}

/// The keys of the object that `pointer` selects in the JSON `text`: what is
/// wrong with the text where it is not JSON, and no keys where there is no
/// object there.
pub uninterp spec fn json_object_keys(text: Seq<char>, pointer: Seq<char>) -> Result<
    Option<Seq<Seq<char>>>,
    Seq<char>,
>;

/// Keys as text, where there are any.
pub open spec fn key_texts(keys: Option<Vec<String>>) -> Option<Seq<Seq<char>>> {
    match keys {
        Some(k) => Some(texts(k@)),
        None => None,
    }
}

/// Parses `text` with `serde_json::from_str`, follows `pointer` with
/// `serde_json::Value::pointer` and lists the keys of the object found there;
/// a parser's error is handed on as its message. The outcome is a function of
/// the two texts and goes by the name [`json_object_keys`].
#[verifier::external_body]
fn object_keys(text: &str, pointer: &str) -> (keys: Result<Option<Vec<String>>, String>)
    ensures
        match keys {
            Ok(found) => json_object_keys(text@, pointer@) == Ok::<_, Seq<char>>(key_texts(found)),
            Err(e) => json_object_keys(text@, pointer@) == Err::<Option<Seq<Seq<char>>>, _>(e@),
        },
{
    let value = serde_json::from_str::<serde_json::Value>(text).map_err(|e| e.to_string())?;
    let node = value.pointer(pointer);
    Ok(node.and_then(|n| n.as_object()).map(|o| o.keys().cloned().collect()))
}

/// Keys that only the retired format has at its top.
pub open spec fn match_keys() -> Seq<Seq<char>> {
    seq!["left_uniforms"@, "params"@]
}

/// Keys that the retired format had in place of topology fields.
pub open spec fn topology_keys() -> Seq<Seq<char>> {
    seq!["xTy"@, "xRz"@, "zRx"@, "xRx"@, "zRz"@]
}

/// Keys that the retired format had in place of framing fields.
pub open spec fn framing_keys() -> Seq<Seq<char>> {
    seq!["rig_tilt"@, "rig_roll"@, "cameraAxisOffset"@]
}

/// The first of `candidates`, from the `i`th on, that is among `keys`.
pub open spec fn first_present(
    candidates: Seq<Seq<char>>,
    keys: Option<Seq<Seq<char>>>,
    i: nat,
) -> Option<Seq<char>>
    decreases candidates.len() - i,
{
    if i >= candidates.len() || keys is None {
        None
    } else if keys->0.contains(candidates[i as int]) {
        Some(candidates[i as int])
    } else {
        first_present(candidates, keys, i + 1)
    }
}

/// What the keys of a document say about its format.
pub enum Format {
    /// A current document.
    Current,
    /// A document of the retired format.
    Match,
    /// A current document with a leftover key.
    Stray(Seq<char>),
}

/// The format of a document whose top-level object has the keys `top`, and
/// whose topology object has the keys `topology`.
pub open spec fn format_of(
    top: Option<Seq<Seq<char>>>,
    topology: Option<Seq<Seq<char>>>,
) -> Format {
    if top is None {
        Format::Current
    } else if first_present(match_keys(), top, 0) is Some {
        Format::Match
    } else {
        match or(
            first_present(topology_keys(), topology, 0),
            first_present(framing_keys(), top, 0),
        ) {
            Some(key) => Format::Stray(key),
            None => Format::Current,
        }
    }
}

/// Whether `key` is among `keys`.
fn contains(keys: &Vec<String>, key: &str) -> (found: bool)
    ensures
        found == texts(keys@).contains(key@),
{
    let mut i: usize = 0;
    while i < keys.len()
        invariant
            i <= keys@.len(),
            forall|k: int| 0 <= k < i ==> texts(keys@)[k] != key@,
        decreases keys@.len() - i,
    {
        assert(texts(keys@)[i as int] == keys@[i as int]@);
        if same(keys[i].as_str(), key) {
            return true;
        }
        i = i + 1;
    }
    false
}

/// The first of `candidates` that is among `keys`.
fn find_first<'a>(candidates: &Vec<&'a str>, keys: &Option<Vec<String>>) -> (found: Option<
    &'a str,
>)
    ensures
        (match found {
            Some(key) => Some(key@),
            None => None,
        }) == first_present(candidates@.map_values(|c: &str| c@), key_texts(*keys), 0),
{
    let ghost wanted = candidates@.map_values(|c: &str| c@);
    match keys {
        None => None,
        Some(present) => {
            let mut i: usize = 0;
            while i < candidates.len()
                invariant
                    i <= candidates@.len(),
                    wanted == candidates@.map_values(|c: &str| c@),
                    *keys == Some(*present),
                    first_present(wanted, key_texts(*keys), 0) == first_present(
                        wanted,
                        key_texts(*keys),
                        i as nat,
                    ),
                decreases candidates@.len() - i,
            {
                assert(wanted[i as int] == candidates@[i as int]@);
                if contains(present, candidates[i]) {
                    return Some(candidates[i]);
                }
                i = i + 1;
            }
            None
        },
    }
}

/// What a check of the keys found.
pub open spec fn format_found(checked: Result<(), CalibrationLoadError>, format: Format) -> bool {
    match checked {
        Ok(_) => format is Current,
        Err(CalibrationLoadError::LegacyMatchFormat) => format is Match,
        Err(CalibrationLoadError::LegacyKey { key }) => format == Format::Stray(key@),
        Err(_) => false,
    }
}

/// Reject the retired format and its leftovers, by the keys of a document's
/// top-level object and of the topology object in it.
pub fn check_keys(top: &Option<Vec<String>>, topology: &Option<Vec<String>>) -> (checked: Result<
    (),
    CalibrationLoadError,
>)
    ensures
        format_found(checked, format_of(key_texts(*top), key_texts(*topology))),
{
    if top.is_none() {
        return Ok(());
    }
    let legacy: Vec<&'static str> = vec!["left_uniforms", "params"];
    assert(legacy@.map_values(|c: &str| c@) =~= match_keys());
    if find_first(&legacy, top).is_some() {
        return Err(CalibrationLoadError::LegacyMatchFormat);
    }
    let in_topology: Vec<&'static str> = vec!["xTy", "xRz", "zRx", "xRx", "zRz"];
    assert(in_topology@.map_values(|c: &str| c@) =~= topology_keys());
    if let Some(key) = find_first(&in_topology, topology) {
        return Err(CalibrationLoadError::LegacyKey { key: key.to_owned() });
    }
    let at_top: Vec<&'static str> = vec!["rig_tilt", "rig_roll", "cameraAxisOffset"];
    assert(at_top@.map_values(|c: &str| c@) =~= framing_keys());
    if let Some(key) = find_first(&at_top, top) {
        return Err(CalibrationLoadError::LegacyKey { key: key.to_owned() });
    }
    Ok(())
}

/// The text was refused with the parser's message.
pub open spec fn parse_failed(checked: Result<(), CalibrationLoadError>, message: Seq<char>) -> bool {
    checked matches Err(CalibrationLoadError::Parse(e)) && e@ == message
}

/// How many bytes to read of a file, so that one beyond the limit shows.
pub fn read_limit() -> (bytes: u64)
    ensures
        bytes == MAX_CALIBRATION_FILE_SIZE + 1,
{
    MAX_CALIBRATION_FILE_SIZE + 1
}

/// Check the text of a document before its fields are read.
pub fn check_text(text: &str) -> (checked: Result<(), CalibrationLoadError>)
    ensures
        text.spec_bytes().len() > MAX_CALIBRATION_FILE_SIZE ==> checked == Err::<
            (),
            CalibrationLoadError,
        >(
            CalibrationLoadError::TooLarge {
                size: text.spec_bytes().len() as u64,
                max: MAX_CALIBRATION_FILE_SIZE,
            },
        ),
        text.spec_bytes().len() <= MAX_CALIBRATION_FILE_SIZE ==> (match (
            json_object_keys(text@, ""@),
            json_object_keys(text@, "/topology"@),
        ) {
            (Ok(top), Ok(topology)) => format_found(checked, format_of(top, topology)),
            (Err(e), _) => parse_failed(checked, e),
            (_, Err(e)) => parse_failed(checked, e),
        }),
{
    let size: u64 = text.as_bytes().len() as u64;
    if size > MAX_CALIBRATION_FILE_SIZE {
        return Err(CalibrationLoadError::TooLarge { size, max: MAX_CALIBRATION_FILE_SIZE });
    }
    match object_keys(text, "") {
        Err(e) => Err(CalibrationLoadError::Parse(e)),
        Ok(top) => match object_keys(text, "/topology") {
            Err(e) => Err(CalibrationLoadError::Parse(e)),
            Ok(topology) => check_keys(&top, &topology),
        },
    }
}

/// Take a calibration read from a document, if this build understands its
/// version and its values are valid.
pub fn accept(calibration: Calibration) -> (accepted: Result<Calibration, CalibrationLoadError>)
    ensures
        match accepted {
            Ok(c) => c == calibration && calibration.schema_version == SCHEMA_VERSION
                && calibration.fault() is None,
            Err(CalibrationLoadError::UnsupportedSchemaVersion { found }) => found
                == calibration.schema_version && found != SCHEMA_VERSION,
            Err(CalibrationLoadError::Invalid(e)) => calibration.schema_version == SCHEMA_VERSION
                && calibration.fault() == Some(e@),
            Err(_) => false,
        },
{
    if calibration.schema_version != SCHEMA_VERSION {
        return Err(
            CalibrationLoadError::UnsupportedSchemaVersion { found: calibration.schema_version },
        );
    }
    match calibration.validate() {
        Ok(_) => Ok(calibration),
        Err(e) => Err(CalibrationLoadError::Invalid(e)),
    }
}

/// A key that is found is one of those looked for, is there, and none before it is; nothing is
/// found exactly if none is there.
pub proof fn law_the_first_key_is_found(
    candidates: Seq<Seq<char>>,
    keys: Option<Seq<Seq<char>>>,
    i: nat,
)
    ensures
        first_present(candidates, keys, i) is None <==> keys is None || forall|k: int|
            i <= k < candidates.len() ==> !keys->0.contains(#[trigger] candidates[k]),
        first_present(candidates, keys, i) matches Some(key) ==> exists|k: int|
            {
                &&& i <= k < candidates.len()
                &&& #[trigger] candidates[k] == key
                &&& keys->0.contains(key)
                &&& forall|j: int| i <= j < k ==> !keys->0.contains(#[trigger] candidates[j])
            },
    decreases candidates.len() - i,
{
    if i < candidates.len() && keys is Some {
        if keys->0.contains(candidates[i as int]) {
            assert(candidates[i as int] == candidates[i as int]);
        } else {
            law_the_first_key_is_found(candidates, keys, i + 1);
            if let Some(key) = first_present(candidates, keys, i + 1) {
                let k = choose|k: int|
                    {
                        &&& i + 1 <= k < candidates.len()
                        &&& #[trigger] candidates[k] == key
                        &&& keys->0.contains(key)
                        &&& forall|j: int|
                            i + 1 <= j < k ==> !keys->0.contains(#[trigger] candidates[j])
                    };
                assert(candidates[k] == key);
            }
        }
    }
}

/// A document with a key that only the retired format has at its top is of that format, whatever
/// else it has.
pub proof fn law_retired_documents_are_told_by_their_keys(
    top: Seq<Seq<char>>,
    topology: Option<Seq<Seq<char>>>,
)
    ensures
        top.contains("left_uniforms"@) || top.contains("params"@) <==> format_of(
            Some(top),
            topology,
        ) is Match,
        format_of(None, topology) is Current,
{
    law_the_first_key_is_found(match_keys(), Some(top), 0);
    let keys = match_keys();
    assert(keys[0] == "left_uniforms"@ && keys[1] == "params"@);
    if top.contains("left_uniforms"@) || top.contains("params"@) {
        assert(top.contains(keys[0]) || top.contains(keys[1]));
    }
}

/// A document that is not of the retired format is current exactly if it has none of that
/// format's keys, neither in its topology nor at its top. A leftover in the topology is told
/// before one at the top.
pub proof fn law_leftover_keys_are_told(
    top: Seq<Seq<char>>,
    topology: Seq<Seq<char>>,
)
    requires
        !top.contains("left_uniforms"@),
        !top.contains("params"@),
    ensures
        ({
            let in_topology = topology.contains("xTy"@) || topology.contains("xRz"@)
                || topology.contains("zRx"@) || topology.contains("xRx"@) || topology.contains(
                "zRz"@,
            );
            let at_top = top.contains("rig_tilt"@) || top.contains("rig_roll"@) || top.contains(
                "cameraAxisOffset"@,
            );
            let format = format_of(Some(top), Some(topology));
            &&& format is Current <==> !in_topology && !at_top
            &&& format is Stray <==> in_topology || at_top
            &&& format matches Format::Stray(key) ==> if in_topology {
                topology.contains(key)
            } else {
                top.contains(key)
            }
        }),
{
    law_retired_documents_are_told_by_their_keys(top, Some(topology));
    law_the_first_key_is_found(topology_keys(), Some(topology), 0);
    law_the_first_key_is_found(framing_keys(), Some(top), 0);
    let a = topology_keys();
    let b = framing_keys();
    assert(a[0] == "xTy"@ && a[1] == "xRz"@ && a[2] == "zRx"@ && a[3] == "xRx"@ && a[4] == "zRz"@);
    assert(b[0] == "rig_tilt"@ && b[1] == "rig_roll"@ && b[2] == "cameraAxisOffset"@);
}

/// A check says what the keys say: nothing of a current document, and the leftover key itself.
pub proof fn law_checks_say_what_the_keys_say(
    checked: Result<(), CalibrationLoadError>,
    format: Format,
)
    requires
        format_found(checked, format),
    ensures
        checked is Ok <==> format is Current,
        format is Match ==> (checked matches Err(e) && e is LegacyMatchFormat),
        format matches Format::Stray(key) ==> (checked matches Err(e) && e is LegacyKey
            && e->LegacyKey_key@ == key),
{
}

/// A document may have a mebibyte, and is read one byte further so that more shows.
pub proof fn law_documents_may_have_a_mebibyte()
    ensures
        MAX_CALIBRATION_FILE_SIZE == 1024 * 1024,
        SCHEMA_VERSION == 1,
{
}

} // verus!
