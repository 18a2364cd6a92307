//! The failure-record store: a flat directory of named blobs in which the TA
//! keeps its counters of failed authentication attempts across restarts.
//!
//! The directory itself is touched by the embedding program. This module
//! decides what each operation reports for what the file system answered,
//! and walks a directory listing, entry by entry as the program reads it.
//!
//! A blob that is not there and a storage layer that fails are kept apart:
//! the first is expected in normal operation, the second is a fault that the
//! TA must get to see.
//!
//! The store is not secure: whoever may write to the directory can reset the
//! counters. A real backend keeps them behind the isolation boundary.

use crate::Error;
use std::string::FromUtf8Error;
use vstd::prelude::*;
use vstd::slice::slice_to_vec;
use vstd::utf8::{decode_utf8, encode_utf8, valid_utf8};

verus! {

/// How an operation on the file system failed.
#[derive(Clone, Copy, Debug, PartialEq, Eq, Structural)]
pub enum IoFailure {
    /// There is no file or directory of that name.
    NotFound,
    /// Anything else: no permission, a full disk, a failing device.
    Other,
}

/// What an operation on a blob reports when the file system failed in the
/// way `failure`: a file that is not there is a blob that is not there, and
/// anything else is an internal error.
pub open spec fn fault_of(failure: IoFailure) -> Error {
    match failure {
        IoFailure::NotFound => Error::NotFound,
        IoFailure::Other => Error::Internal,
    }
}

/// What reading a blob reports, given what reading its file gave.
///
/// The bytes of the file are handed on untouched. A file that is not there
/// is reported as a blob that is not there, and any other failure as an
/// internal error.
pub fn read(outcome: Result<Vec<u8>, IoFailure>) -> (r: Result<Vec<u8>, Error>)
    ensures
        outcome matches Ok(data) ==> r == Ok::<Vec<u8>, Error>(data),
        outcome matches Err(failure) ==> r == Err::<Vec<u8>, Error>(fault_of(failure)),
        outcome == Err::<Vec<u8>, IoFailure>(IoFailure::NotFound) ==> r == Err::<Vec<u8>, Error>(
            Error::NotFound,
        ),
        outcome == Err::<Vec<u8>, IoFailure>(IoFailure::Other) ==> r == Err::<Vec<u8>, Error>(
            Error::Internal,
        ),
{
    match outcome {
        Ok(data) => Ok(data),
        Err(IoFailure::NotFound) => Err(Error::NotFound),
        Err(IoFailure::Other) => Err(Error::Internal),
    }
}

/// What writing a blob reports, given what replacing its file gave. A failed
/// write is an internal error.
pub fn write(outcome: Result<(), IoFailure>) -> (r: Result<(), Error>)
    ensures
        outcome is Ok ==> r == Ok::<(), Error>(()),
        outcome is Err ==> r == Err::<(), Error>(Error::Internal),
{
    match outcome {
        Ok(()) => Ok(()),
        Err(_) => Err(Error::Internal),
    }
}

/// What deleting a blob reports, given what removing its file gave. A file
/// that is not there is reported as a blob that is not there, and any other
/// failure as an internal error.
pub fn delete(outcome: Result<(), IoFailure>) -> (r: Result<(), Error>)
    ensures
        outcome is Ok ==> r == Ok::<(), Error>(()),
        outcome matches Err(failure) ==> r == Err::<(), Error>(fault_of(failure)),
        outcome == Err::<(), IoFailure>(IoFailure::NotFound) ==> r == Err::<(), Error>(
            Error::NotFound,
        ),
        outcome == Err::<(), IoFailure>(IoFailure::Other) ==> r == Err::<(), Error>(
            Error::Internal,
        ),
{
    match outcome {
        Ok(()) => Ok(()),
        Err(IoFailure::NotFound) => Err(Error::NotFound),
        Err(IoFailure::Other) => Err(Error::Internal),
    }
}

/// One entry of a directory as it was read: the raw bytes of its file name,
/// or nothing where the entry itself could not be read.
#[derive(Debug, PartialEq, Eq)]
pub enum RawEntry {
    Name(Vec<u8>),
    Unreadable,
}

/// The name that an entry stands for: its bytes read as UTF-8. An entry that
/// could not be read, or whose bytes are not UTF-8, stands for none.
pub open spec fn name_of(entry: RawEntry) -> Option<Seq<char>> {
    match entry {
        RawEntry::Name(bytes) => if valid_utf8(bytes@) {
            Some(decode_utf8(bytes@))
        } else {
            None
        },
        RawEntry::Unreadable => None,
    }
}

/// The names that a listing yields: those of its entries that stand for one,
/// in the order of the entries.
pub open spec fn names_of(entries: Seq<RawEntry>) -> Seq<Seq<char>>
    decreases entries.len(),
{
    if entries.len() == 0 {
        Seq::empty()
    } else {
        match name_of(entries[0]) {
            Some(name) => seq![name] + names_of(entries.drop_first()),
            None => names_of(entries.drop_first()),
        }
    }
}

/// How many of the entries stand for no name.
pub open spec fn nameless_in(entries: Seq<RawEntry>) -> nat
    decreases entries.len(),
{
    if entries.len() == 0 {
        0
    } else if name_of(entries[0]) is None {
        1 + nameless_in(entries.drop_first())
    } else {
        nameless_in(entries.drop_first())
    }
}

/// Every entry of a listing is either listed, by its name, or passed over:
/// none is lost and none is listed twice.
pub proof fn lemma_listed_or_passed_over(entries: Seq<RawEntry>)
    ensures
        names_of(entries).len() + nameless_in(entries) == entries.len(),
    decreases entries.len(),
{
    if entries.len() > 0 {
        lemma_listed_or_passed_over(entries.drop_first());
    }
}

/// A listing of entries that all stand for a name yields the name of each,
/// in the order of the entries.
pub proof fn lemma_names_of_named_entries(entries: Seq<RawEntry>, i: int)
    requires
        nameless_in(entries) == 0,
        0 <= i < entries.len(),
    ensures
        names_of(entries).len() == entries.len(),
        name_of(entries[i]) == Some(names_of(entries)[i]),
    decreases entries.len(),
{
    lemma_listed_or_passed_over(entries);
    let tail = entries.drop_first();
    lemma_listed_or_passed_over(tail);
    if i > 0 {
        lemma_names_of_named_entries(tail, i - 1);
    }
}

/// What `String::from_utf8` of std fails with: the bytes are not UTF-8.
#[verifier::external_type_specification]
#[verifier::external_body]
pub struct ExFromUtf8Error(FromUtf8Error);

/// `String::from_utf8` of std: the bytes as a string where they are valid
/// UTF-8, whose encoding is then those very bytes, and an error where they
/// are not.
pub assume_specification[ String::from_utf8 ](vec: Vec<u8>) -> (r: Result<String, FromUtf8Error>)
    ensures
        r matches Ok(s) ==> encode_utf8(s@) == vec@,
        r is Err ==> !valid_utf8(vec@),
;

/// The name that `entry` stands for, if it stands for one.
pub fn entry_name(entry: &RawEntry) -> (name: Option<String>)
    ensures
        match name {
            Some(s) => name_of(*entry) == Some(s@),
            None => name_of(*entry) is None,
        },
{
    match entry {
        RawEntry::Name(bytes) => match String::from_utf8(slice_to_vec(bytes.as_slice())) {
            Ok(s) => {
                proof {
                    vstd::utf8::encode_utf8_valid_utf8(s@);
                    vstd::utf8::encode_utf8_decode_utf8(s@);
                }
                Some(s)
            },
            Err(_) => None,
        },
        RawEntry::Unreadable => None,
    }
}

/// A walk over the names in a directory listing: finite and one-shot. The
/// entries may all be there from the start, or be handed in one by one as
/// the directory is read.
pub struct StdDirIterator {
    entries: Vec<RawEntry>,
    pos: usize,
    skipped: usize,
}

impl StdDirIterator {
    /// The walk is within its listing, and has passed over no more entries
    /// than it has looked at.
    #[verifier::type_invariant]
    spec fn within(&self) -> bool {
        self.skipped <= self.pos <= self.entries.len()
    }

    /// The entries of the listing that the walk has not looked at yet.
    pub closed spec fn unseen(&self) -> Seq<RawEntry> {
        self.entries@.skip(self.pos as int)
    }

    /// The names still to come, in order.
    pub open spec fn remaining(&self) -> Seq<Seq<char>> {
        names_of(self.unseen())
    }

    /// How many entries the walk has passed over so far because they stand
    /// for no name.
    pub closed spec fn spec_skipped(&self) -> nat {
        self.skipped as nat
    }

    /// A walk over `entries`, from the first.
    pub fn new(entries: Vec<RawEntry>) -> (it: StdDirIterator)
        ensures
            it.unseen() == entries@,
            it.spec_skipped() == 0,
    {
        StdDirIterator { entries, pos: 0, skipped: 0 }
    }

    /// Hands the walk one more entry of the directory, to be looked at after
    /// those that it has already.
    pub fn push(&mut self, entry: RawEntry)
        ensures
            final(self).unseen() == old(self).unseen().push(entry),
            final(self).spec_skipped() == old(self).spec_skipped(),
    {
        let mut walk = StdDirIterator::new(Vec::new());
        core::mem::swap(self, &mut walk);
        proof {
            use_type_invariant(&walk);
        }
        let StdDirIterator { mut entries, pos, skipped } = walk;
        entries.push(entry);
        assert(entries@.skip(pos as int) == old(self).entries@.skip(pos as int).push(entry));
        *self = StdDirIterator { entries, pos, skipped };
    }

    /// The next name, or `None` once there are no more among the entries
    /// that the walk has. Entries that stand for no name are passed over and
    /// counted. The walk only moves forward: what is left afterwards is the
    /// end of what was left before, and is shorter if anything was left.
    pub fn next(&mut self) -> (name: Option<String>)
        ensures
            exists|j: int|
                0 <= j <= old(self).unseen().len() && final(self).unseen() == #[trigger] old(
                    self,
                ).unseen().skip(j),
            old(self).unseen().len() > 0 ==> final(self).unseen().len() < old(
                self,
            ).unseen().len(),
            match name {
                Some(s) => {
                    &&& old(self).remaining().len() > 0
                    &&& s@ == old(self).remaining()[0]
                    &&& final(self).remaining() == old(self).remaining().drop_first()
                },
                None => {
                    &&& old(self).remaining().len() == 0
                    &&& final(self).unseen().len() == 0
                },
            },
            final(self).spec_skipped() + nameless_in(final(self).unseen()) == old(
                self,
            ).spec_skipped() + nameless_in(old(self).unseen()),
    {
        proof {
            use_type_invariant(&*self);
        }
        while self.pos < self.entries.len()
            invariant
                self.skipped <= self.pos <= self.entries.len(),
                old(self).pos <= self.pos,
                self.unseen() == old(self).unseen().skip(self.pos - old(self).pos),
                self.entries == old(self).entries,
                self.remaining() == old(self).remaining(),
                self.spec_skipped() + nameless_in(self.unseen()) == old(self).spec_skipped()
                    + nameless_in(old(self).unseen()),
            decreases self.entries.len() - self.pos,
        {
            let i: usize = self.pos;
            assert(self.unseen().drop_first() == self.entries@.skip(i + 1));
            let decoded = entry_name(&self.entries[i]);
            self.pos = i + 1;
            assert(self.unseen() == old(self).unseen().skip(self.pos - old(self).pos));
            match decoded {
                Some(s) => {
                    return Some(s);
                },
                None => {
                    self.skipped = self.skipped + 1;
                },
            }
        }
        None
    }

    /// How many entries the walk has passed over so far because they stand
    /// for no name.
    pub fn skipped(&self) -> (n: usize)
        ensures
            n == self.spec_skipped(),
    {
        self.skipped
    }
}

/// What listing the store reports, given what opening the directory gave:
/// a walk over the names in it, or an internal error where the directory
/// could not be read. `outcome` holds the entries read so far, which are
/// none where the caller hands them to the walk one by one.
pub fn list(outcome: Result<Vec<RawEntry>, IoFailure>) -> (r: Result<StdDirIterator, Error>)
    ensures
        match outcome {
            Ok(entries) => r matches Ok(it) && it.unseen() == entries@ && it.spec_skipped() == 0,
            Err(_) => r matches Err(e) && e == Error::Internal,
        },
{
    match outcome {
        Ok(entries) => Ok(StdDirIterator::new(entries)),
        Err(_) => Err(Error::Internal),
    }
}

} // verus!
