use vstd::prelude::*;

verus! {

/// What the `csv` crate's default writer emits for the two-field record
/// `first`, `second`.
pub uninterp spec fn csv_record_of(first: Seq<char>, second: Seq<char>) -> Seq<u8>;

/// A field that the default writer copies as it is: non-empty ASCII without
/// a delimiter, a quote or a line break.
pub open spec fn plain_field(s: Seq<char>) -> bool {
    &&& s.len() > 0
    &&& forall|i: int|
        0 <= i < s.len() ==> {
            let c = #[trigger] s[i];
            (c as u32) < 128 && c != ',' && c != '"' && c != '\n' && c != '\r'
        }
}

/// The bytes of an ASCII string.
pub open spec fn ascii_bytes(s: Seq<char>) -> Seq<u8> {
    s.map_values(|c: char| c as u8)
}

/// Relies on `csv::Writer::write_record` and `csv::Writer::into_inner`, on a
/// fresh writer over a `Vec<u8>` with the default settings: comma delimiter,
/// quotes only where needed, `\n` after the record. Plain fields are written
/// unquoted. Writing into a `Vec` cannot fail, and a fresh writer has no
/// earlier record whose field count could differ.
#[verifier::external_body]
fn encode_record(first: &str, second: &str) -> (r: Option<Vec<u8>>)
    ensures
        r is Some,
        r matches Some(v) ==> v@ == csv_record_of(first@, second@),
        r matches Some(v) ==> (plain_field(first@) && plain_field(second@) ==> v@ == ascii_bytes(
            first@,
        ) + seq![44u8] + ascii_bytes(second@) + seq![10u8]),
{
    let mut wtr = csv::Writer::from_writer(Vec::new());
    if wtr.write_record([first, second]).is_err() {
        return None;
    }
    wtr.into_inner().ok()
}

/// The note stored beside every winning identifier.
pub open spec fn seed_note() -> Seq<char> {
    "Seed Phrase Not Stored"@
}

/// The header line of the store.
pub open spec fn header_line() -> Seq<u8> {
    csv_record_of("Public Key"@, "Note"@)
}

/// The line that records `record`.
pub open spec fn record_line(record: MatchRecord) -> Seq<u8> {
    csv_record_of(record.public_identifier@, record.note@)
}

/// What one run appends to the store: the header first when the store has
/// none yet, then the record's line.
pub open spec fn appended(has_header: bool, record: MatchRecord) -> Seq<u8> {
    if has_header {
        record_line(record)
    } else {
        header_line() + record_line(record)
    }
}

/// The one candidate that is ever persisted: a winning identifier and its note.
pub struct MatchRecord {
    pub public_identifier: String,
    pub note: String,
}

/// The store could not be prepared or written.
#[derive(Debug, PartialEq, Eq, Structural)]
pub enum PersistError {
    Encoding,
}

impl MatchRecord {
    /// The record kept for the winning identifier.
    pub fn found(public_identifier: String) -> (r: MatchRecord)
        ensures
            r.public_identifier@ == public_identifier@,
            r.note@ == seed_note(),
    {
        MatchRecord { public_identifier, note: String::from_str("Seed Phrase Not Stored") }
    }
}

/// The header line, encoded.
pub fn header_bytes() -> (r: Result<Vec<u8>, PersistError>)
    ensures
        r is Ok,
        r matches Ok(v) ==> v@ == header_line(),
        r matches Ok(v) ==> v@ == "Public Key,Note\n"@.map_values(|c: char| c as u8),
{
    proof {
        reveal_strlit("Public Key");
        reveal_strlit("Note");
        reveal_strlit("Public Key,Note\n");
    }
    match encode_record("Public Key", "Note") {
        Some(v) => {
            assert(plain_field("Public Key"@));
            assert(plain_field("Note"@));
            assert(v@ =~= "Public Key,Note\n"@.map_values(|c: char| c as u8));
            Ok(v)
        },
        None => Err(PersistError::Encoding),
    }
}

/// The line that records `record`.
pub fn record_bytes(record: &MatchRecord) -> (r: Result<Vec<u8>, PersistError>)
    ensures
        r is Ok,
        r matches Ok(v) ==> v@ == record_line(*record),
        r matches Ok(v) ==> (plain_field(record.public_identifier@) && plain_field(record.note@)
            ==> v@ == ascii_bytes(record.public_identifier@) + seq![44u8] + ascii_bytes(
            record.note@,
        ) + seq![10u8]),
{
    match encode_record(record.public_identifier.as_str(), record.note.as_str()) {
        Some(v) => Ok(v),
        None => Err(PersistError::Encoding),
    }
}

/// The bytes that a run appends to the store to record `record`;
/// `has_header` says whether the store already starts with its header.
pub fn bytes_to_append(has_header: bool, record: &MatchRecord) -> (r: Result<Vec<u8>, PersistError>)
    ensures
        r is Ok,
        r matches Ok(v) ==> v@ == appended(has_header, *record),
        r matches Ok(v) ==> (plain_field(record.public_identifier@) && plain_field(record.note@)
            ==> v@ == (if has_header {
            seq![]
        } else {
            "Public Key,Note\n"@.map_values(|c: char| c as u8)
        }) + ascii_bytes(record.public_identifier@) + seq![44u8] + ascii_bytes(record.note@)
            + seq![10u8]),
{
    let line = record_bytes(record)?;
    if has_header {
        Ok(line)
    } else {
        let mut out = header_bytes()?;
        let mut tail = line;
        out.append(&mut tail);
        Ok(out)
    }
}

/// The header is written once: two runs against one store that has no
/// header yet (the first run finds none, the second finds the one the
/// first wrote) leave one header line followed by the two records.
pub proof fn lemma_header_written_once(first: MatchRecord, second: MatchRecord)
    ensures
        appended(false, first) + appended(true, second) == header_line() + record_line(first)
            + record_line(second),
{
    assert(appended(false, first) + appended(true, second) =~= header_line() + record_line(first)
        + record_line(second));
}

} // verus!
