use vstd::prelude::*;

use crate::error::{classify, open_error, Error};
use crate::record::{
    bytes_result, decode_record, decoded, encode_record, is_record_of, record_of, MIN_COMPRESS_SIZE,
};

verus! {

/// What the caller found on disk for one key of a store.
pub enum Stored {
    /// the store root is missing or is not a directory
    NoDir,
    /// the key's file could not be opened or read, with the error's kind
    Failed(std::io::ErrorKind),
    /// the whole content of the key's file
    Record(Vec<u8>),
}

/// The error that looking a key up gives, or `None` where its record is at hand.
pub open spec fn lookup_error(s: Stored) -> Option<Error> {
    match s {
        Stored::NoDir => Some(Error::NotDir),
        Stored::Failed(k) => Some(open_error(k)),
        Stored::Record(_) => None,
    }
}

/// The raw record stored under a key: its flag byte and payload as they
/// lie on disk.
pub fn get_raw_file(stored: Stored) -> (r: Result<Vec<u8>, Error>)
    ensures
        match stored {
            Stored::Record(rec) => r matches Ok(raw) && raw@ == rec@,
            _ => r == Err::<Vec<u8>, Error>(lookup_error(stored).unwrap()),
        },
{
    match stored {
        Stored::NoDir => Err(Error::NotDir),
        Stored::Failed(k) => Err(classify(k)),
        Stored::Record(rec) => Ok(rec),
    }
}

/// What reading a key gives: the lookup's error, or what its record decodes to.
pub open spec fn read_result(s: Stored) -> Result<Seq<u8>, Error> {
    match s {
        Stored::NoDir => Err(Error::NotDir),
        Stored::Failed(k) => Err(open_error(k)),
        Stored::Record(rec) => decoded(rec@),
    }
}

/// The record to store for `value` in a root that is (`dir_is_dir`) or is not
/// a directory. The caller replaces the key's file with it, whole.
pub fn write(dir_is_dir: bool, value: &[u8]) -> (r: Result<Vec<u8>, Error>)
    ensures
        !dir_is_dir ==> r == Err::<Vec<u8>, Error>(Error::NotDir),
        dir_is_dir ==> (r matches Ok(rec) && is_record_of(rec@, value@)),
{
    if !dir_is_dir {
        return Err(Error::NotDir);
    }
    Ok(encode_record(value))
}

/// Reads the value stored under a key into `buf`, which must be empty.
/// On failure `buf` is left as it was.
pub fn read_into(stored: Stored, buf: &mut Vec<u8>) -> (r: Result<(), Error>)
    ensures
        old(buf)@.len() > 0 ==> r == Err::<(), Error>(Error::NotEmpty) && final(buf)@ == old(buf)@,
        old(buf)@.len() == 0 ==> match read_result(stored) {
            Ok(v) => r is Ok && final(buf)@ == v,
            Err(e) => r == Err::<(), Error>(e) && final(buf)@ == old(buf)@,
        },
{
    if buf.len() > 0 {
        return Err(Error::NotEmpty);
    }
    let rec = match get_raw_file(stored) {
        Ok(rec) => rec,
        Err(e) => return Err(e),
    };
    match decode_record(rec.as_slice()) {
        Ok(v) => {
            *buf = v;
            Ok(())
        },
        Err(e) => Err(e),
    }
}

/// Reads the value stored under a key.
pub fn read(stored: Stored) -> (r: Result<Vec<u8>, Error>)
    ensures
        bytes_result(r) == read_result(stored),
{
    let mut value: Vec<u8> = Vec::new();
    match read_into(stored, &mut value) {
        Ok(()) => Ok(value),
        Err(e) => Err(e),
    }
}

/// Whether the record under a key may be removed: it may where the lookup
/// found it, and the lookup's error is returned otherwise.
pub fn delete(stored: Stored) -> (r: Result<(), Error>)
    ensures
        lookup_error(stored) is None ==> r is Ok,
        lookup_error(stored) is Some ==> r == Err::<(), Error>(lookup_error(stored).unwrap()),
{
    match get_raw_file(stored) {
        Ok(_) => Ok(()),
        Err(e) => Err(e),
    }
}

/// A value that `write` turns into a record is what `read` gives back for
/// that record: the record decodes to exactly the value, empty or not.
pub proof fn lemma_round_trip(value: Seq<u8>, rec: Seq<u8>)
    requires
        is_record_of(rec, value),
    ensures
        decoded(rec) == Ok::<Seq<u8>, Error>(value),
{
    if value.len() < MIN_COMPRESS_SIZE {
        assert(rec.drop_first() == value);
    }
}

/// Writing a second value under a key leaves nothing of the first: the
/// record that replaces the file is fixed by the second value alone, and
/// reads back as exactly that value, also where it is the shorter one.
pub proof fn lemma_overwrite(first: Seq<u8>, rec_first: Seq<u8>, second: Seq<u8>, rec_second: Seq<u8>)
    requires
        is_record_of(rec_first, first),
        is_record_of(rec_second, second),
    ensures
        rec_second == record_of(second),
        decoded(rec_second) == Ok::<Seq<u8>, Error>(second),
        second.len() < MIN_COMPRESS_SIZE ==> rec_second.len() == second.len() + 1,
{
    lemma_round_trip(second, rec_second);
}

/// A value shorter than `MIN_COMPRESS_SIZE` is stored with one byte of
/// overhead: the flag byte.
pub proof fn lemma_small_overhead(value: Seq<u8>, rec: Seq<u8>)
    requires
        is_record_of(rec, value),
        value.len() < MIN_COMPRESS_SIZE,
    ensures
        rec.len() == value.len() + 1,
{
}

} // verus!
