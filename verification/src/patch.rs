//! Patching parts of a remote file from a local one.

use crate::error::{Drive9Error, ErrorView};
use crate::exception::{other_exception, Drive9Exception, Drive9Result};
use crate::text::{append_signed, append_unsigned, decimal};
use vstd::prelude::*;

verus! {

broadcast use vstd::string::group_string_axioms;

/// A patch whose parameters make sense.
#[derive(Debug)]
pub struct PatchRequest {
    pub local_path: String,
    pub remote_path: String,
    /// The 1-based numbers of the parts to upload.
    pub dirty_parts: Vec<i32>,
    /// The size of the remote file after the patch.
    pub new_size: i64,
    pub part_size: i64,
    pub expected_revision: Option<i64>,
}

/// Why a patch is rejected before anything is sent.
pub open spec fn patch_rejection(
    dirty_parts: Seq<i32>,
    new_size: i64,
    part_size: i64,
) -> Option<Seq<char>> {
    if new_size < 0 {
        Some("new_size must be >= 0, got "@ + decimal(new_size as int))
    } else if part_size <= 0 {
        Some("part_size must be > 0, got "@ + decimal(part_size as int))
    } else if exists|i: int| 0 <= i < dirty_parts.len() && #[trigger] dirty_parts[i] < 1 {
        Some("dirty_parts contain a non-positive part number"@)
    } else {
        None
    }
}

impl PatchRequest {
    /// Checks the parameters of a patch.
    pub fn new(
        local_path: String,
        remote_path: String,
        dirty_parts: Vec<i32>,
        new_size: i64,
        part_size: i64,
        expected_revision: Option<i64>,
    ) -> (request: Drive9Result<Self>)
        ensures
            match patch_rejection(dirty_parts@, new_size, part_size) {
                Some(message) => request matches Err(exception) && exception@ == other_exception(
                    message,
                ),
                None => request == Ok::<Self, Drive9Exception>(
                    PatchRequest {
                        local_path,
                        remote_path,
                        dirty_parts,
                        new_size,
                        part_size,
                        expected_revision,
                    },
                ),
            },
    {
        if new_size < 0 {
            let mut detail = "new_size must be >= 0, got ".to_string();
            append_signed(&mut detail, new_size);
            return Err(Drive9Exception::other(detail));
        }
        if part_size <= 0 {
            let mut detail = "part_size must be > 0, got ".to_string();
            append_signed(&mut detail, part_size);
            return Err(Drive9Exception::other(detail));
        }
        let mut at: usize = 0;
        while at < dirty_parts.len()
            invariant
                new_size >= 0,
                part_size > 0,
                at <= dirty_parts.len(),
                forall|i: int| 0 <= i < at ==> #[trigger] dirty_parts@[i] >= 1,
            decreases dirty_parts.len() - at,
        {
            if dirty_parts[at] < 1 {
                return Err(
                    Drive9Exception::other(
                        "dirty_parts contain a non-positive part number".to_string(),
                    ),
                );
            }
            at += 1;
        }
        Ok(
            PatchRequest {
                local_path,
                remote_path,
                dirty_parts,
                new_size,
                part_size,
                expected_revision,
            },
        )
    }
}

/// Where part `part_num` begins. The size of the parts is the one that the
/// caller numbered them by, whatever the length of this part is.
pub open spec fn part_offset(part_num: i32, part_size: i64) -> int {
    (part_num - 1) * part_size
}

/// An offset as the unsigned number that the file is positioned with.
pub open spec fn seek_position(offset: int) -> int {
    if offset < 0 {
        offset + 0x1_0000_0000_0000_0000
    } else {
        offset
    }
}

/// The state of the reading of a part.
pub struct PartReadView {
    pub part_num: i32,
    pub requested_size: i64,
    /// Where in the local file the part begins.
    pub position: int,
    /// What has been read of the part.
    pub data: Seq<u8>,
}

impl PartReadView {
    /// How many bytes the part has.
    pub open spec fn len(self) -> int {
        self.requested_size as usize as int
    }
}

/// The reading of a part from the local file.
#[derive(Debug)]
pub struct PartRead {
    part_num: i32,
    requested_size: i64,
    position: u64,
    data: Vec<u8>,
}

impl View for PartRead {
    type V = PartReadView;

    closed spec fn view(&self) -> PartReadView {
        PartReadView {
            part_num: self.part_num,
            requested_size: self.requested_size,
            position: self.position as int,
            data: self.data@,
        }
    }
}

impl PartRead {
    /// No more has been read than the part has.
    pub open spec fn wf(&self) -> bool {
        &&& self@.requested_size > 0
        &&& self@.data.len() <= self@.len()
    }

    /// Prepares to read the `requested_size` bytes of part `part_num`.
    pub fn new(part_num: i32, requested_size: i64, part_size: i64) -> (read: Result<
        Self,
        Drive9Error,
    >)
        requires
            requested_size > 0 ==> i64::MIN <= part_offset(part_num, part_size) <= i64::MAX,
        ensures
            if requested_size <= 0 {
                read matches Err(error) && error@ == ErrorView::Other(
                    "server returned requested_size "@ + decimal(requested_size as int)
                        + " for part "@ + decimal(part_num as int),
                )
            } else {
                &&& read matches Ok(begun)
                &&& begun.wf()
                &&& begun@ == (PartReadView {
                    part_num,
                    requested_size,
                    position: seek_position(part_offset(part_num, part_size)),
                    data: Seq::empty(),
                })
                &&& part_num >= 1 && part_size > 0 ==> begun@.position == (part_num - 1) * part_size
            },
    {
        if requested_size <= 0 {
            let mut message = "server returned requested_size ".to_string();
            append_signed(&mut message, requested_size);
            message.append(" for part ");
            append_signed(&mut message, part_num as i64);
            return Err(Drive9Error::Other(message));
        }
        let offset: i64 = (part_num as i64 - 1) * part_size;
        let position: u64 = offset as u64;
        assert(position == seek_position(offset as int)) by {
            if offset < 0 {
                assert(offset as u64 == offset + 0x1_0000_0000_0000_0000) by (bit_vector)
                    requires
                        offset < 0,
                ;
            }
        }
        proof {
            if part_num >= 1 && part_size > 0 {
                law_part_is_read_at_its_place(part_num, part_size);
            }
        }
        Ok(PartRead { part_num, requested_size, position, data: Vec::new() })
    }

    /// Where the part begins in the local file.
    pub fn position(&self) -> (position: u64)
        ensures
            position == self@.position,
    {
        self.position
    }

    /// How many bytes of the part are still to be read.
    pub fn wanted(&self) -> (wanted: usize)
        requires
            self.wf(),
        ensures
            wanted == self@.len() - self@.data.len(),
    {
        self.requested_size as usize - self.data.len()
    }

    /// Takes up the bytes that a read gave. Says whether another read is needed:
    /// not at the end of the file, and not when the part is complete.
    pub fn accept(&mut self, bytes: &[u8]) -> (more: bool)
        requires
            old(self).wf(),
            bytes@.len() <= old(self)@.len() - old(self)@.data.len(),
        ensures
            final(self).wf(),
            final(self)@ == (PartReadView { data: old(self)@.data + bytes@, ..old(self)@ }),
            more == (bytes@.len() > 0 && final(self)@.data.len() < final(self)@.len()),
    {
        self.data.extend_from_slice(bytes);
        assert(self.data@ =~= old(self)@.data + bytes@);
        bytes.len() > 0 && self.data.len() < self.requested_size as usize
    }

    /// Gives the bytes of the part. A local file that does not reach to the end
    /// of the part is an error, so that no truncated part is uploaded.
    pub fn finish(self) -> (part: Result<Vec<u8>, Drive9Error>)
        requires
            self.wf(),
        ensures
            if self@.data.len() == self@.len() {
                part matches Ok(bytes) && bytes@ == self@.data
            } else {
                part matches Err(error) && error@ == ErrorView::Other(
                    "short read for part "@ + decimal(self@.part_num as int) + ": expected "@
                        + decimal(self@.requested_size as int) + " bytes, got "@ + decimal(
                        self@.data.len() as int,
                    ),
                )
            },
    {
        if self.data.len() != self.requested_size as usize {
            let mut message = "short read for part ".to_string();
            append_signed(&mut message, self.part_num as i64);
            message.append(": expected ");
            append_signed(&mut message, self.requested_size);
            message.append(" bytes, got ");
            append_unsigned(&mut message, self.data.len() as u128);
            return Err(Drive9Error::Other(message));
        }
        Ok(self.data)
    }
}

/// The parts tile the file: each begins where the one before it ends, and the
/// first begins at the start.
pub proof fn law_parts_tile_the_file(part_num: i32, part_size: i64)
    requires
        1 <= part_num < i32::MAX,
        part_size > 0,
    ensures
        part_offset(1, part_size) == 0,
        part_offset((part_num + 1) as i32, part_size) == part_offset(part_num, part_size)
            + part_size,
        part_offset(part_num, part_size) >= 0,
{
    assert((part_num + 1 - 1) * part_size == (part_num - 1) * part_size + part_size)
        by (nonlinear_arith);
    assert((part_num - 1) * part_size >= 0) by (nonlinear_arith)
        requires
            part_num >= 1,
            part_size > 0,
    ;
}

/// A patch that passes has sizes that make sense and numbers parts from 1 on.
pub proof fn law_accepted_patch_is_sound(dirty_parts: Seq<i32>, new_size: i64, part_size: i64)
    ensures
        patch_rejection(dirty_parts, new_size, part_size) is None <==> {
            &&& new_size >= 0
            &&& part_size > 0
            &&& forall|i: int| 0 <= i < dirty_parts.len() ==> #[trigger] dirty_parts[i] >= 1
        },
{
}

/// A part is read at its place in the local file: behind all the parts with lower
/// numbers, each of the size that the caller numbered them by.
pub proof fn law_part_is_read_at_its_place(part_num: i32, part_size: i64)
    requires
        part_num >= 1,
        part_size > 0,
    ensures
        seek_position(part_offset(part_num, part_size)) == (part_num - 1) * part_size,
{
    assert((part_num - 1) * part_size >= 0) by (nonlinear_arith)
        requires
            part_num >= 1,
            part_size > 0,
    ;
}

/// Two parts are read as far from each other as their numbers are apart.
pub proof fn law_parts_are_read_apart(first: i32, second: i32, part_size: i64)
    requires
        1 <= first <= second,
        part_size > 0,
    ensures
        seek_position(part_offset(second, part_size)) - seek_position(part_offset(first, part_size))
            == (second - first) * part_size,
{
    law_part_is_read_at_its_place(first, part_size);
    law_part_is_read_at_its_place(second, part_size);
    assert((second - 1) * part_size - (first - 1) * part_size == (second - first) * part_size)
        by (nonlinear_arith);
}

/// The file is positioned at the offset, read as an unsigned number of 64 bits.
pub proof fn law_seek_position(offset: int)
    requires
        i64::MIN <= offset <= i64::MAX,
    ensures
        offset >= 0 ==> seek_position(offset) == offset,
        offset < 0 ==> seek_position(offset) - offset == 0x1_0000_0000_0000_0000,
{
}

/// A part has as many bytes as the server asked for, if that many can be
/// addressed.
pub proof fn law_part_length(read: PartReadView)
    ensures
        0 <= read.requested_size <= usize::MAX ==> read.len() == read.requested_size,
{
}

/// Each parameter that makes no sense is named with its value; the new size comes
/// first, then the size of the parts, then their numbers.
pub proof fn law_patch_rejection_says_why(
    dirty_parts: Seq<i32>,
    new_size: i64,
    part_size: i64,
    at: int,
)
    ensures
        new_size < 0 ==> patch_rejection(dirty_parts, new_size, part_size) == Some(
            "new_size must be >= 0, got "@ + decimal(new_size as int),
        ),
        new_size >= 0 && part_size <= 0 ==> patch_rejection(dirty_parts, new_size, part_size)
            == Some("part_size must be > 0, got "@ + decimal(part_size as int)),
        new_size >= 0 && part_size > 0 && 0 <= at < dirty_parts.len() && dirty_parts[at] < 1
            ==> patch_rejection(dirty_parts, new_size, part_size) == Some(
            "dirty_parts contain a non-positive part number"@,
        ),
{
}

} // verus!
