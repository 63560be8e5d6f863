//! The signing key as it stands in its file: the file's contents, taken as
//! text and left exactly as they are.

use vstd::prelude::*;
use vstd::utf8::{
    decode_utf8, decode_utf8_split, encode_utf8, encode_utf8_decode_utf8, encode_utf8_valid_utf8,
    is_char_boundary, is_char_boundary_iff_not_is_continuation_byte, valid_utf8, valid_utf8_split,
};

verus! {

/// Why the signing key could not be loaded. Both are failures of reading the
/// key file: there is no key without the whole file as text.
#[derive(Debug)]
pub enum KeyFileError {
    /// The file could not be read. Holds the failure as the read reported it.
    Unreadable(std::io::Error),
    /// The file was read, but its bytes are not UTF-8 text.
    NotText,
}

/// The key that a file with these contents holds: all of the contents as text,
/// where they are well-formed UTF-8, and nothing where they are not. No byte is
/// trimmed and none is checked for being a hex digit.
pub open spec fn key_text(contents: Seq<u8>) -> Option<Seq<char>> {
    if valid_utf8(contents) {
        Some(decode_utf8(contents))
    } else {
        None
    }
}

/// What loading the key yields for each outcome of reading the key file.
pub open spec fn loaded_key(read: Result<Vec<u8>, std::io::Error>) -> Result<
    Seq<char>,
    KeyFileError,
> {
    match read {
        Ok(contents) => match key_text(contents@) {
            Some(text) => Ok(text),
            None => Err(KeyFileError::NotText),
        },
        Err(failure) => Err(KeyFileError::Unreadable(failure)),
    }
}

/// A loaded key, or the failure to load it, with the key seen as a sequence of
/// characters.
pub open spec fn key_view(key: Result<String, KeyFileError>) -> Result<Seq<char>, KeyFileError> {
    match key {
        Ok(text) => Ok(text@),
        Err(error) => Err(error),
    }
}

/// A key that was written to the file as text is loaded as it was written:
/// where the read found the UTF-8 encoding of `text`, the loaded key is `text`,
/// with nothing trimmed and no letter changed in case.
pub proof fn lemma_written_key_is_loaded(text: Seq<char>, read: Result<Vec<u8>, std::io::Error>)
    requires
        read matches Ok(contents) && contents@ == encode_utf8(text),
    ensures
        loaded_key(read) == Ok::<Seq<char>, KeyFileError>(text),
{
    encode_utf8_valid_utf8(text);
    encode_utf8_decode_utf8(text);
}

/// Loading is repeatable: two reads that found the same contents, or that
/// failed with the same failure, yield the same key or the same error.
pub proof fn lemma_unchanged_file_same_key(
    first: Result<Vec<u8>, std::io::Error>,
    second: Result<Vec<u8>, std::io::Error>,
)
    requires
        match (first, second) {
            (Ok(a), Ok(b)) => a@ == b@,
            (Err(e), Err(f)) => e == f,
            _ => false,
        },
    ensures
        loaded_key(first) == loaded_key(second),
{
}

/// A read that failed yields no key at all, and its failure is handed on as it
/// came, whatever made the read fail.
pub proof fn lemma_failed_read_yields_no_key(read: Result<Vec<u8>, std::io::Error>)
    requires
        read is Err,
    ensures
        loaded_key(read) == Err::<Seq<char>, KeyFileError>(KeyFileError::Unreadable(read->Err_0)),
{
}

/// A newline that ends the file ends the key: it is not trimmed.
pub proof fn lemma_trailing_newline_is_kept(contents: Seq<u8>)
    requires
        valid_utf8(contents),
        contents.len() > 0,
        contents.last() == 0x0au8,
    ensures
        key_text(contents) matches Some(text) && text.len() > 0 && text.last() == '\n',
{
    let cut = contents.len() - 1;
    let body = contents.subrange(0, cut);
    let end = contents.subrange(cut, contents.len() as int);
    assert(is_char_boundary(contents, cut)) by {
        is_char_boundary_iff_not_is_continuation_byte(contents, cut);
    }
    valid_utf8_split(contents, cut);
    decode_utf8_split(contents, cut);
    assert(end =~= seq![0x0au8]);
    assert(decode_utf8(end) =~= seq!['\n']) by {
        reveal_with_fuel(valid_utf8, 2);
        reveal_with_fuel(decode_utf8, 2);
        assert(end.subrange(1, 1) =~= Seq::<u8>::empty());
        assert((0x0au8 & 0x7F) as u32 == 0x0au32) by (bit_vector);
    }
    assert(decode_utf8(contents) =~= decode_utf8(body) + seq!['\n']);
}

} // verus!
