//! Cutting a file into the parts of a multipart upload.

use crate::output_printer::DefaultPrinter;
use crate::text::forward_slashes;
use crate::text::with_forward_slashes;
use vstd::arithmetic::div_mod::lemma_fundamental_div_mod;
use vstd::prelude::*;

verus! {

/// The largest number of parts that one upload may have.
pub const MAX_CHUNKS: u64 = 10000;

/// The chunk size, in MiB, that is used when none is given.
pub const DEFAULT_CHUNK_SIZE: u64 = 5;

/// How many chunks a file of `file_size` bytes takes when it is cut into
/// chunks of `chunk_size` bytes: one more than the quotient, less one where
/// the file divides evenly.
pub open spec fn chunk_count_for(file_size: nat, chunk_size: nat) -> nat
    recommends
        chunk_size > 0,
{
    if file_size % chunk_size == 0 {
        file_size / chunk_size
    } else {
        file_size / chunk_size + 1
    }
}

/// The size of the last chunk: the remainder, or a full chunk where the file
/// divides evenly.
pub open spec fn last_chunk_size_for(file_size: nat, chunk_size: nat) -> nat
    recommends
        chunk_size > 0,
{
    if file_size % chunk_size == 0 {
        chunk_size
    } else {
        file_size % chunk_size
    }
}

/// Number of chunks and size of the last one for a file of `file_size` bytes
/// that is not empty: there is at least one chunk, and the last one is not
/// empty.
///
/// `file_name` names the file for the caller's own reporting and does not
/// enter the result.
pub fn calculate_chunks(file_name: &str, file_size: u64, chunk_size_bytes: u64) -> (r: (u64, u64))
    requires
        file_size > 0,
        chunk_size_bytes > 0,
        chunk_count_for(file_size as nat, chunk_size_bytes as nat) <= MAX_CHUNKS,
    ensures
        r.0 == chunk_count_for(file_size as nat, chunk_size_bytes as nat),
        r.1 == last_chunk_size_for(file_size as nat, chunk_size_bytes as nat),
        1 <= r.0 <= MAX_CHUNKS,
        0 < r.1 <= chunk_size_bytes,
        (r.0 - 1) * chunk_size_bytes + r.1 == file_size,
{
    proof {
        lemma_chunk_bounds(file_size as nat, chunk_size_bytes as nat);
    }
    let mut chunk_count: u64 = file_size / chunk_size_bytes + 1;
    let mut size_of_last_chunk: u64 = file_size % chunk_size_bytes;
    if size_of_last_chunk == 0 {
        size_of_last_chunk = chunk_size_bytes;
        chunk_count -= 1;
    }
    (chunk_count, size_of_last_chunk)
}

/// Why a file cannot be cut into chunks.
#[derive(Clone, Copy, Debug, PartialEq, Eq, Structural)]
pub enum PlanError {
    /// The file holds no bytes.
    EmptyFile,
    /// The file would take more than [`MAX_CHUNKS`] chunks.
    TooManyChunks,
}

/// The partition of a file into chunks of one size and a last chunk that may
/// be shorter.
#[derive(Clone, Copy, Debug, PartialEq, Eq, Structural)]
pub struct ChunkPlan {
    pub chunk_count: u64,
    pub chunk_size_bytes: u64,
    pub last_chunk_size_bytes: u64,
}

impl ChunkPlan {
    /// The number of bytes that the chunks of this plan hold together.
    pub open spec fn covered_bytes(&self) -> int {
        (self.chunk_count - 1) * self.chunk_size_bytes + self.last_chunk_size_bytes
    }

    /// A plan has at least one chunk and at most [`MAX_CHUNKS`], a positive
    /// chunk size, a last chunk that is neither empty nor longer than the
    /// others, and covers a file whose size fits in 64 bits.
    pub open spec fn well_formed(&self) -> bool {
        &&& 1 <= self.chunk_count <= MAX_CHUNKS
        &&& self.chunk_size_bytes > 0
        &&& 0 < self.last_chunk_size_bytes <= self.chunk_size_bytes
        &&& self.covered_bytes() <= u64::MAX
    }

    /// The offset in the file at which chunk `chunk_index` starts.
    pub open spec fn spec_part_offset(&self, chunk_index: int) -> int {
        chunk_index * self.chunk_size_bytes
    }

    /// The number of bytes in chunk `chunk_index`.
    pub open spec fn spec_part_length(&self, chunk_index: int) -> int {
        if chunk_index == self.chunk_count - 1 {
            self.last_chunk_size_bytes as int
        } else {
            self.chunk_size_bytes as int
        }
    }

    /// The number under which chunk `chunk_index` is uploaded: parts are
    /// counted from one.
    pub open spec fn spec_part_number(&self, chunk_index: int) -> int {
        chunk_index + 1
    }
}

/// What [`plan`] returns for a file size and a chunk size.
pub open spec fn plan_for(file_size: nat, chunk_size: nat) -> Result<ChunkPlan, PlanError>
    recommends
        chunk_size > 0,
{
    if file_size == 0 {
        Err(PlanError::EmptyFile)
    } else if chunk_count_for(file_size, chunk_size) > MAX_CHUNKS {
        Err(PlanError::TooManyChunks)
    } else {
        Ok(
            ChunkPlan {
                chunk_count: chunk_count_for(file_size, chunk_size) as u64,
                chunk_size_bytes: chunk_size as u64,
                last_chunk_size_bytes: last_chunk_size_for(file_size, chunk_size) as u64,
            },
        )
    }
}

/// The chunk count is never below the quotient, and the last chunk is never
/// empty nor longer than a chunk.
pub proof fn lemma_chunk_bounds(file_size: nat, chunk_size: nat)
    requires
        chunk_size > 0,
    ensures
        file_size / chunk_size <= chunk_count_for(file_size, chunk_size) <= file_size / chunk_size
            + 1,
        0 < last_chunk_size_for(file_size, chunk_size) <= chunk_size,
        file_size > 0 ==> chunk_count_for(file_size, chunk_size) >= 1,
        (chunk_count_for(file_size, chunk_size) - 1) * chunk_size + last_chunk_size_for(
            file_size,
            chunk_size,
        ) == file_size,
{
    let q = (file_size / chunk_size) as int;
    let r = (file_size % chunk_size) as int;
    lemma_fundamental_div_mod(file_size as int, chunk_size as int);
    assert(file_size == chunk_size * q + r);
    assert(chunk_size * q == q * chunk_size) by (nonlinear_arith);
    assert((q - 1) * chunk_size + chunk_size == q * chunk_size) by (nonlinear_arith);
    if file_size > 0 && r == 0 {
        assert(q >= 1) by (nonlinear_arith)
            requires
                file_size == chunk_size * q,
                file_size > 0,
                chunk_size > 0,
        ;
    }
}

/// Cuts a file of `file_size_bytes` bytes into chunks of `chunk_size_bytes`.
///
/// An empty file is refused, and so is a file that would take more than
/// [`MAX_CHUNKS`] chunks; any other file gets its plan.
pub fn plan(file_size_bytes: u64, chunk_size_bytes: u64) -> (r: Result<ChunkPlan, PlanError>)
    requires
        chunk_size_bytes > 0,
    ensures
        r == plan_for(file_size_bytes as nat, chunk_size_bytes as nat),
        r matches Ok(p) ==> p.well_formed() && p.covered_bytes() == file_size_bytes,
{
    proof {
        lemma_chunk_bounds(file_size_bytes as nat, chunk_size_bytes as nat);
    }
    if file_size_bytes == 0 {
        return Err(PlanError::EmptyFile);
    }
    let whole: u64 = file_size_bytes / chunk_size_bytes;
    let rest: u64 = file_size_bytes % chunk_size_bytes;
    if whole > MAX_CHUNKS || (whole == MAX_CHUNKS && rest != 0) {
        return Err(PlanError::TooManyChunks);
    }
    let (chunk_count, last_chunk_size_bytes) = calculate_chunks(
        "",
        file_size_bytes,
        chunk_size_bytes,
    );
    Ok(ChunkPlan { chunk_count, chunk_size_bytes, last_chunk_size_bytes })
}

impl ChunkPlan {
    /// The offset in the file at which chunk `chunk_index` starts.
    pub fn part_offset(&self, chunk_index: u64) -> (offset: u64)
        requires
            self.well_formed(),
            chunk_index < self.chunk_count,
        ensures
            offset == self.spec_part_offset(chunk_index as int),
            offset + self.spec_part_length(chunk_index as int) <= self.covered_bytes(),
    {
        proof {
            lemma_part_inside_file(*self, chunk_index as int);
        }
        chunk_index * self.chunk_size_bytes
    }

    /// The number of bytes in chunk `chunk_index`: the last chunk has its own
    /// size, every other one the plan's chunk size.
    pub fn part_length(&self, chunk_index: u64) -> (length: u64)
        requires
            self.well_formed(),
            chunk_index < self.chunk_count,
        ensures
            length == self.spec_part_length(chunk_index as int),
            length > 0,
    {
        if self.chunk_count - 1 == chunk_index {
            self.last_chunk_size_bytes
        } else {
            self.chunk_size_bytes
        }
    }

    /// The part number of chunk `chunk_index`, counted from one.
    pub fn part_number(&self, chunk_index: u64) -> (number: i32)
        requires
            self.well_formed(),
            chunk_index < self.chunk_count,
        ensures
            number == self.spec_part_number(chunk_index as int),
            1 <= number <= MAX_CHUNKS,
    {
        (chunk_index + 1) as i32
    }
}

/// Every chunk of a plan lies inside the file that the plan covers.
pub proof fn lemma_part_inside_file(plan: ChunkPlan, chunk_index: int)
    requires
        plan.well_formed(),
        0 <= chunk_index < plan.chunk_count,
    ensures
        0 <= plan.spec_part_offset(chunk_index),
        plan.spec_part_offset(chunk_index) + plan.spec_part_length(chunk_index)
            <= plan.covered_bytes(),
{
    let size = plan.chunk_size_bytes as int;
    let last = plan.chunk_count - 1;
    assert(0 <= chunk_index * size) by (nonlinear_arith)
        requires
            0 <= chunk_index,
            0 < size,
    ;
    if chunk_index < last {
        assert((chunk_index + 1) * size <= last * size) by (nonlinear_arith)
            requires
                chunk_index + 1 <= last,
                0 < size,
        ;
        assert((chunk_index + 1) * size == chunk_index * size + size) by (nonlinear_arith);
    }
}

/// The chunks of a plan tile the file: the first starts at offset zero, each
/// chunk ends where the next one starts, and the last ends at the end of the
/// file.
pub proof fn lemma_parts_tile_file(plan: ChunkPlan, chunk_index: int)
    requires
        plan.well_formed(),
        0 <= chunk_index < plan.chunk_count,
    ensures
        plan.spec_part_offset(0) == 0,
        chunk_index + 1 < plan.chunk_count ==> plan.spec_part_offset(chunk_index)
            + plan.spec_part_length(chunk_index) == plan.spec_part_offset(chunk_index + 1),
        chunk_index + 1 == plan.chunk_count ==> plan.spec_part_offset(chunk_index)
            + plan.spec_part_length(chunk_index) == plan.covered_bytes(),
{
    let size = plan.chunk_size_bytes as int;
    assert((chunk_index + 1) * size == chunk_index * size + size) by (nonlinear_arith);
    assert(0 * size == 0) by (nonlinear_arith);
}

/// The number of bytes in the first `count` chunks of a plan.
pub open spec fn bytes_in_chunks(plan: ChunkPlan, count: nat) -> int
    decreases count,
{
    if count == 0 {
        0
    } else {
        bytes_in_chunks(plan, (count - 1) as nat) + plan.spec_part_length(count - 1)
    }
}

/// The chunks before a chunk hold exactly the bytes before its offset, and
/// all chunks together hold exactly the bytes of the file: every byte of the
/// file goes into one chunk, and into one only.
pub proof fn lemma_chunks_hold_every_byte(plan: ChunkPlan, count: nat)
    requires
        plan.well_formed(),
        count <= plan.chunk_count,
    ensures
        count < plan.chunk_count ==> bytes_in_chunks(plan, count) == plan.spec_part_offset(
            count as int,
        ),
        count == plan.chunk_count ==> bytes_in_chunks(plan, count) == plan.covered_bytes(),
    decreases count,
{
    if count > 0 {
        lemma_chunks_hold_every_byte(plan, (count - 1) as nat);
        lemma_parts_tile_file(plan, count - 1);
    } else {
        lemma_parts_tile_file(plan, 0);
    }
}

/// A plan that [`plan`] returns covers the file exactly:
/// `(chunk_count - 1) * chunk_size + last_chunk_size` is the file's size, for
/// every file that is not empty and takes at most [`MAX_CHUNKS`] chunks. An
/// empty file has no plan.
pub proof fn lemma_plan_covers_file(file_size: nat, chunk_size: nat)
    requires
        chunk_size > 0,
        file_size <= u64::MAX,
        chunk_size <= u64::MAX,
    ensures
        file_size == 0 ==> plan_for(file_size, chunk_size) == Err::<ChunkPlan, PlanError>(
            PlanError::EmptyFile,
        ),
        file_size > 0 && chunk_count_for(file_size, chunk_size) <= MAX_CHUNKS ==> (plan_for(
            file_size,
            chunk_size,
        ) matches Ok(p) && p.well_formed() && p.chunk_count <= MAX_CHUNKS && (p.chunk_count - 1)
            * p.chunk_size_bytes + p.last_chunk_size_bytes == file_size),
        plan_for(file_size, chunk_size) is Ok <==> file_size > 0 && chunk_count_for(
            file_size,
            chunk_size,
        ) <= MAX_CHUNKS,
{
    lemma_chunk_bounds(file_size, chunk_size);
}

/// Planning is repeatable: whatever two calls of [`plan`] return for the same
/// file size and chunk size is the same.
pub proof fn lemma_plan_is_repeatable(
    file_size_bytes: u64,
    chunk_size_bytes: u64,
    first: Result<ChunkPlan, PlanError>,
    second: Result<ChunkPlan, PlanError>,
)
    requires
        chunk_size_bytes > 0,
        call_ensures(plan, (file_size_bytes, chunk_size_bytes), first),
        call_ensures(plan, (file_size_bytes, chunk_size_bytes), second),
    ensures
        first == second,
{
}

/// The message for a file that cannot be planned.
pub open spec fn plan_error_text(error: PlanError, file_name: Seq<char>) -> Seq<char> {
    match error {
        PlanError::EmptyFile => "File is empty "@ + file_name + "."@,
        PlanError::TooManyChunks => "Too many chunks "@ + file_name + "."@,
    }
}

impl PlanError {
    /// The message that says why the file `file_name` cannot be planned.
    pub fn message(&self, file_name: &str) -> (text: String)
        ensures
            text@ == plan_error_text(*self, file_name@),
    {
        let mut text = match self {
            PlanError::EmptyFile => String::from_str("File is empty "),
            PlanError::TooManyChunks => String::from_str("Too many chunks "),
        };
        text.append(file_name);
        text.append(".");
        text
    }
}

/// The key under which a file is uploaded: the target folder, a `/`, and the
/// file's name with every backslash turned into a `/`.
pub open spec fn upload_key_text(target_folder: Seq<char>, file_name: Seq<char>) -> Seq<char> {
    target_folder + "/"@ + with_forward_slashes(file_name)
}

/// The key under which the file `file_name` is uploaded into
/// `target_folder`.
pub fn upload_key(target_folder: &str, file_name: &str) -> (key: String)
    ensures
        key@ == upload_key_text(target_folder@, file_name@),
{
    let file_str = forward_slashes(file_name);
    let mut key = String::from_str(target_folder);
    key.append("/");
    key.append(file_str.as_str());
    key
}

/// The message for an upload without a target folder.
pub open spec fn target_folder_missing_text() -> Seq<char> {
    "Please specify the target folder"@
}

/// The message that announces the upload of a file.
pub open spec fn uploading_text(file: Seq<char>, key: Seq<char>) -> Seq<char> {
    "Uploading "@ + file + " to "@ + key
}

/// The message for a file that was uploaded.
pub open spec fn uploaded_text(key: Seq<char>) -> Seq<char> {
    "Upload successful: "@ + key
}

/// The message for a file that could not be uploaded.
pub open spec fn upload_failed_text(cause: Seq<char>) -> Seq<char> {
    "Could not upload: "@ + cause
}

/// The target folder of an upload. Where none is given, that is reported as
/// a failure and nothing is to be uploaded.
pub fn upload_target_folder<'a>(
    output_printer: &mut DefaultPrinter,
    target_folder: Option<&'a str>,
) -> (folder: Option<&'a str>)
    requires
        old(output_printer).error < u32::MAX,
    ensures
        folder == target_folder,
        final(output_printer)@ == match target_folder {
            Some(_) => old(output_printer)@,
            None => old(output_printer)@.err(target_folder_missing_text()),
        },
{
    match target_folder {
        Some(tf) => Some(tf),
        None => {
            output_printer.err_output("Please specify the target folder");
            None
        },
    }
}

/// Announces the upload of the file at `file_path`, which goes into
/// `target_folder` under the name `file_name`, and returns the key under
/// which it is to be uploaded.
pub fn announce_upload(
    output_printer: &mut DefaultPrinter,
    target_folder: &str,
    file_name: &str,
    file_path: &str,
) -> (key: String)
    requires
        old(output_printer).success < u32::MAX,
    ensures
        key@ == upload_key_text(target_folder@, file_name@),
        final(output_printer)@ == old(output_printer)@.ok(uploading_text(file_path@, key@)),
{
    let key = upload_key(target_folder, file_name);
    let mut msg = String::from_str("Uploading ");
    msg.append(file_path);
    msg.append(" to ");
    msg.append(key.as_str());
    output_printer.ok_output(msg.as_str());
    key
}

/// Reports what came of uploading a file under `key`.
pub fn report_upload(output_printer: &mut DefaultPrinter, key: &str, outcome: &Result<(), String>)
    requires
        outcome is Ok ==> old(output_printer).success < u32::MAX,
        outcome is Err ==> old(output_printer).error < u32::MAX,
    ensures
        final(output_printer)@ == match outcome {
            Ok(_) => old(output_printer)@.ok(uploaded_text(key@)),
            Err(cause) => old(output_printer)@.err(upload_failed_text(cause@)),
        },
{
    match outcome {
        Ok(_) => {
            let mut msg = String::from_str("Upload successful: ");
            msg.append(key);
            output_printer.ok_output(msg.as_str());
        },
        Err(cause) => {
            let mut msg = String::from_str("Could not upload: ");
            msg.append(cause.as_str());
            output_printer.err_output(msg.as_str());
        },
    }
}

} // verus!
