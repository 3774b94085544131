use vstd::prelude::*;
use crate::codex::abi::{self, AbiBlob, BlobSpec};
use crate::codex::decode::{self, decode_blob, DecodeError};
use crate::codex::hexfile::{self, hex_text_to_bytes};
use crate::codex::inspect::{self, hexdump, pretty_json};
use crate::codex::jsontext;
use crate::codex::json::{self, blob_to_json};

verus! {

/// Why `encode` refuses a target before reading any file: the path is missing, or it holds
/// no JSON source.
pub open spec fn spec_encode_precheck(target: Seq<char>, exists: bool, found: nat) -> Result<(), Seq<char>> {
    if !exists {
        Err("Path does not exist: "@ + target)
    } else if found == 0 {
        Err("No .json files found in: "@ + target)
    } else {
        Ok(())
    }
}

/// Whether `encode` goes on with `target`, given whether the path exists and how many JSON
/// sources were found under it; the error names the target.
pub fn encode_precheck(target: &str, exists: bool, found: usize) -> (r: Result<(), String>)
    ensures
        match (r, spec_encode_precheck(target@, exists, found as nat)) {
            (Ok(()), Ok(())) => true,
            (Err(m), Err(e)) => m@ == e,
            _ => false,
        },
{
    if !exists {
        let mut m = String::from_str("Path does not exist: ");
        m.append(target);
        Err(m)
    } else if found == 0 {
        let mut m = String::from_str("No .json files found in: ");
        m.append(target);
        Err(m)
    } else {
        Ok(())
    }
}

/// The result of an `encode` run in which `failed` files could not be encoded.
pub open spec fn spec_encode_summary(failed: nat) -> Result<(), Seq<char>> {
    if failed > 0 {
        Err(abi::spec_count_decimal(failed) + " file(s) failed to encode"@)
    } else {
        Ok(())
    }
}

/// The result of an `encode` run: an error that counts the files that failed, if any did.
pub fn encode_summary(failed: usize) -> (r: Result<(), String>)
    ensures
        match (r, spec_encode_summary(failed as nat)) {
            (Ok(()), Ok(())) => true,
            (Err(m), Err(e)) => m@ == e,
            _ => false,
        },
{
    if failed > 0 {
        let mut m = String::new();
        abi::push_count(&mut m, failed);
        m.append(" file(s) failed to encode");
        Err(m)
    } else {
        Ok(())
    }
}

/// The JSON manifest of a blob, re-indented by serde_json where it parses (as it does for
/// every decoded blob whose names are plain text).
pub open spec fn spec_pretty_manifest(b: BlobSpec) -> Seq<char> {
    let j = json::spec_blob_json(b);
    if jsontext::spec_is_json(j) {
        jsontext::spec_pretty_json(j)
    } else {
        j
    }
}

/// The JSON text that `decode` writes for a binary blob: the manifest of the decoded blob,
/// re-indented; decoding errors are reported as `Decode error: <reason>`.
pub fn decode_to_json(data: &[u8]) -> (r: Result<String, String>)
    ensures
        match decode::parse_blob(data@) {
            Ok(b) => r matches Ok(s) && s@ == spec_pretty_manifest(b),
            Err(e) => r matches Err(m) && m@ == "Decode error: "@ + decode::error_text(e),
        },
{
    match decode_blob(data) {
        Ok(blob) => {
            let j = blob_to_json(&blob);
            Ok(pretty_json(j.as_str()))
        },
        Err(e) => {
            let mut m = String::from_str("Decode error: ");
            m.append(e);
            Err(m)
        },
    }
}

/// The header of an inspection: the path, the size and the hex dump.
pub open spec fn spec_inspect_head(path: Seq<char>, data: Seq<u8>) -> Seq<char> {
    "--- ABI Binary Inspection: "@ + path + " ---\n"@ + "File size: "@ + abi::spec_count_decimal(
        data.len(),
    ) + " bytes\n"@ + "\nHex Dump:\n"@ + inspect::spec_hexdump(data)
}

/// The summary of a decoded blob: how many functions, events and errors it declares.
pub open spec fn spec_inspect_summary(b: BlobSpec) -> Seq<char> {
    "\nSummary:\n"@ + "  Functions: "@ + abi::spec_count_decimal(b.functions.len()) + "\n"@
        + "  Events:    "@ + abi::spec_count_decimal(b.events.len()) + "\n"@ + "  Errors:    "@
        + abi::spec_count_decimal(b.errors.len()) + "\n"@ + "\nJSON Manifest:\n"@
}

fn inspect_summary(blob: &AbiBlob) -> (s: String)
    ensures
        s@ == spec_inspect_summary(blob@),
{
    let mut s = String::from_str("\nSummary:\n");
    s.append("  Functions: ");
    abi::push_count(&mut s, blob.functions.len());
    s.append("\n");
    s.append("  Events:    ");
    abi::push_count(&mut s, blob.events.len());
    s.append("\n");
    s.append("  Errors:    ");
    abi::push_count(&mut s, blob.errors.len());
    s.append("\n");
    s.append("\nJSON Manifest:\n");
    s
}

/// The text that `inspect` prints for the file at `path` holding `data`, and the decoding
/// error where the blob does not decode. Where it decodes, the text goes on with a summary
/// and the re-indented JSON manifest.
pub fn inspect_report(path: &str, data: &[u8]) -> (r: (String, Option<String>))
    ensures
        match decode::parse_blob(data@) {
            Ok(b) => r.1 is None && r.0@ == spec_inspect_head(path@, data@) + spec_inspect_summary(b)
                + spec_pretty_manifest(b) + "\n"@,
            Err(e) => {
                &&& r.0@ == spec_inspect_head(path@, data@)
                &&& r.1 matches Some(m) && m@ == decode::error_text(e)
            },
        },
{
    let mut s = String::from_str("--- ABI Binary Inspection: ");
    s.append(path);
    s.append(" ---\n");
    s.append("File size: ");
    abi::push_count(&mut s, data.len());
    s.append(" bytes\n");
    s.append("\nHex Dump:\n");
    let dump = hexdump(data);
    s.append(dump.as_str());
    let ghost head = s@;
    assert(head =~= spec_inspect_head(path@, data@));
    match decode_blob(data) {
        Ok(blob) => {
            let summary = inspect_summary(&blob);
            s.append(summary.as_str());
            let j = blob_to_json(&blob);
            let p = pretty_json(j.as_str());
            s.append(p.as_str());
            s.append("\n");
            assert(s@ =~= head + spec_inspect_summary(blob@) + spec_pretty_manifest(blob@) + "\n"@);
            (s, None)
        },
        Err(e) => (s, Some(String::from_str(e))),
    }
}

/// The message `bin` reports where hex text does not convert.
pub open spec fn spec_hex_error_message() -> Seq<char> {
    "Hex decode error: odd number of digits. Make sure the file only contains a valid hex string (with or without 0x prefix)."@
}

/// The bytes that `bin` writes for a hex text file, or its error message where the hex
/// digits do not pair up.
pub fn bin_from_hex_text(content: &str) -> (r: Result<Vec<u8>, String>)
    ensures
        match r {
            Ok(v) => hexfile::spec_clean_hex(content@).len() % 2 == 0 && v@ == hexfile::spec_hex_decode(
                hexfile::spec_clean_hex(content@),
            ),
            Err(m) => hexfile::spec_clean_hex(content@).len() % 2 == 1 && m@ == spec_hex_error_message(),
        },
{
    match hex_text_to_bytes(content) {
        Ok(v) => Ok(v),
        Err(_) => Err(
            String::from_str(
                "Hex decode error: odd number of digits. Make sure the file only contains a valid hex string (with or without 0x prefix).",
            ),
        ),
    }
}

} // verus!
