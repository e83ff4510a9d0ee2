//! The model hub: the addresses to ask, and what is taken from the answers.

use crate::models::{HFFile, HFModel, HFModelInfo};
use crate::text::{chars_of, ends_with, spec_ends_with, spec_trim, trim};
use vstd::prelude::*;
use vstd::string::{StringExecFns, StringSliceAdditionalSpecFns};

verus! {

/// Whether a byte stands for itself in an address: letters, digits, and the
/// four marks `-`, `.`, `_`, `~`.
pub open spec fn is_unreserved(b: u8) -> bool {
    ||| 0x30 <= b <= 0x39
    ||| 0x41 <= b <= 0x5a
    ||| 0x61 <= b <= 0x7a
    ||| b == 0x2d
    ||| b == 0x2e
    ||| b == 0x5f
    ||| b == 0x7e
}

/// The character of a hexadecimal digit, in upper case.
pub open spec fn hex_digit(d: u8) -> char {
    if d < 10 {
        ((0x30 + d) as u8) as char
    } else {
        ((0x41 + d - 10) as u8) as char
    }
}

/// A byte as it stands in an address: itself where it is unreserved, else a
/// percent sign and its two hexadecimal digits.
pub open spec fn percent_encoded_byte(b: u8) -> Seq<char> {
    if is_unreserved(b) {
        seq![b as char]
    } else {
        seq!['%', hex_digit(b / 16), hex_digit(b % 16)]
    }
}

/// Bytes as they stand in an address, each encoded by itself.
pub open spec fn percent_encoded(bytes: Seq<u8>) -> Seq<char>
    decreases bytes.len(),
{
    if bytes.len() == 0 {
        Seq::empty()
    } else {
        percent_encoded(bytes.drop_last()) + percent_encoded_byte(bytes.last())
    }
}

/// `urlencoding::encode`: every byte of the text's UTF-8 form is
/// percent-encoded, but for letters, digits and `-`, `.`, `_`, `~`.
#[verifier::external_body]
pub(crate) fn url_encode(data: &str) -> (encoded: String)
    ensures
        encoded@ == percent_encoded(data.spec_bytes()),
{
    urlencoding::encode(data).into_owned()
}

/// Names the lower-case form that `str::to_lowercase` gives of a text.
pub uninterp spec fn lowercased(text: Seq<char>) -> Seq<char>;

/// `str::to_lowercase`: the lower-case form that `lowercased` names.
#[verifier::external_body]
pub(crate) fn to_lowercase(text: &str) -> (lower: String)
    ensures
        lower@ == lowercased(text@),
{
    text.to_lowercase()
}

/// The address of a search for `query`, as the bytes `query_bytes`.
pub open spec fn spec_search_url(query_bytes: Seq<u8>) -> Seq<char> {
    "https://huggingface.co/api/models?search="@ + percent_encoded(query_bytes)
        + "&limit=20&pipeline_tag=text-generation"@
}

/// The address to ask for the models that match `query`; none for a blank
/// query, which finds nothing without asking.
pub fn search_url(query: &str) -> (url: Option<String>)
    ensures
        match url {
            Some(u) => spec_trim(query@).len() > 0 && u@ == spec_search_url(query.spec_bytes()),
            None => spec_trim(query@).len() == 0,
        },
{
    if trim(&chars_of(query)).len() == 0 {
        return None;
    }
    let mut url = "https://huggingface.co/api/models?search=".to_owned();
    url.append(url_encode(query).as_str());
    url.append("&limit=20&pipeline_tag=text-generation");
    Some(url)
}

/// The identifiers of the models of a search's answer, in its order.
pub fn model_ids(models: Vec<HFModel>) -> (ids: Vec<String>)
    ensures
        ids.len() == models.len(),
        forall|i: int| 0 <= i < models.len() ==> #[trigger] ids@[i] == models@[i].id,
{
    let mut ids: Vec<String> = Vec::new();
    for m in it: models
        invariant
            ids.len() == it.index(),
            forall|i: int| 0 <= i < it.index() ==> #[trigger] ids@[i] == it.seq()[i].id,
    {
        ids.push(m.id);
    }
    ids
}

/// The address to ask for the files of a model.
pub fn files_url(model: &str) -> (url: String)
    ensures
        url@ == "https://huggingface.co/api/models/"@ + model@ + "?expand[]=siblings"@,
{
    let mut url = "https://huggingface.co/api/models/".to_owned();
    url.append(model);
    url.append("?expand[]=siblings");
    url
}

/// Whether a file's name is that of a model file: in lower case it ends in
/// `.gguf`.
pub open spec fn is_gguf_name(name: Seq<char>) -> bool {
    spec_ends_with(lowercased(name), ".gguf"@)
}

/// Whether a file's name is that of a model file.
pub fn is_gguf(name: &str) -> (b: bool)
    ensures
        b == is_gguf_name(name@),
{
    let lower = to_lowercase(name);
    ends_with(&chars_of(lower.as_str()), &chars_of(".gguf"))
}

/// The model files among `files`, in their order.
pub open spec fn spec_gguf_files(files: Seq<HFFile>) -> Seq<HFFile>
    decreases files.len(),
{
    if files.len() == 0 {
        Seq::empty()
    } else if is_gguf_name(files.last().rfilename@) {
        spec_gguf_files(files.drop_last()).push(files.last())
    } else {
        spec_gguf_files(files.drop_last())
    }
}

/// The model files among the files of a model, in the hub's order.
pub fn gguf_files(info: HFModelInfo) -> (files: Vec<HFFile>)
    ensures
        files@ == spec_gguf_files(info.siblings@),
{
    let ghost all = info.siblings@;
    let mut files: Vec<HFFile> = Vec::new();
    for f in it: info.siblings
        invariant
            it.seq() == all,
            files@ == spec_gguf_files(all.take(it.index() as int)),
    {
        proof {
            let k = it.index() as int;
            assert(all.take(k + 1).drop_last() =~= all.take(k));
            assert(all.take(k + 1).last() == all[k]);
        }
        if is_gguf(f.rfilename.as_str()) {
            files.push(f);
        }
    }
    assert(all.take(all.len() as int) =~= all);
    files
}

} // verus!
