//! Where a downloaded object goes and what is reported for it.

use crate::output_printer::DefaultPrinter;
use crate::text::last_segment;
use crate::text::last_segment_of;
use crate::text::lemma_last_segment;
use vstd::prelude::*;

verus! {

/// The name of the file that an object is downloaded to: what follows the
/// last `/` of its key, so that no `/` stands in the name. A key that ends
/// in `/` names a folder, which has no file.
pub fn download_file_name(key: &str) -> (name: Option<String>)
    ensures
        match name {
            Some(file) => file@ == last_segment(key@) && file@.len() > 0 && forall|i: int|
                0 <= i < file@.len() ==> #[trigger] file@[i] != '/',
            None => last_segment(key@).len() == 0,
        },
{
    proof {
        lemma_last_segment(key@);
    }
    let last = last_segment_of(key);
    if last.as_str().unicode_len() > 0 {
        Some(last)
    } else {
        None
    }
}

/// The parts of the path, below the target folder, to which an object is
/// downloaded: the name of its file alone where folders are flattened, else
/// its key and then the name of its file. A key that ends in `/` names a
/// folder, which is not downloaded.
pub fn download_path_parts(key: &str, flatten: bool) -> (parts: Option<Vec<String>>)
    ensures
        parts is None <==> last_segment(key@).len() == 0,
        parts matches Some(p) ==> (if flatten {
            p@.len() == 1 && p@[0]@ == last_segment(key@)
        } else {
            p@.len() == 2 && p@[0]@ == key@ && p@[1]@ == last_segment(key@)
        }),
{
    match download_file_name(key) {
        Some(last) => {
            let mut parts: Vec<String> = Vec::new();
            if !flatten {
                parts.push(String::from_str(key));
            }
            parts.push(last);
            Some(parts)
        },
        None => None,
    }
}

/// The message for an object that was downloaded to a path.
pub open spec fn downloaded_text(key: Seq<char>, path: Seq<char>) -> Seq<char> {
    "Download successfully "@ + key + " to "@ + path
}

/// The message for an object that could not be downloaded.
pub open spec fn download_failed_text(key: Seq<char>, cause: Seq<char>) -> Seq<char> {
    "Cannot download "@ + key + " due to "@ + cause
}

/// Reports that the object `key` was written to `path`.
pub fn report_downloaded(output_printer: &mut DefaultPrinter, key: &str, path: &str)
    requires
        old(output_printer).success < u32::MAX,
    ensures
        final(output_printer)@ == old(output_printer)@.ok(downloaded_text(key@, path@)),
{
    let mut msg = String::from_str("Download successfully ");
    msg.append(key);
    msg.append(" to ");
    msg.append(path);
    output_printer.ok_output(msg.as_str());
}

/// Reports that the object `key` could not be fetched.
pub fn report_download_failed(output_printer: &mut DefaultPrinter, key: &str, cause: &str)
    requires
        old(output_printer).error < u32::MAX,
    ensures
        final(output_printer)@ == old(output_printer)@.err(download_failed_text(key@, cause@)),
{
    let mut msg = String::from_str("Cannot download ");
    msg.append(key);
    msg.append(" due to ");
    msg.append(cause);
    output_printer.err_output(msg.as_str());
}

} // verus!
