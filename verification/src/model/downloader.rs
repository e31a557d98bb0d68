//! The address of a model file.

use vstd::prelude::*;
use vstd::string::StringExecFns;

verus! {

/// The directory, on the web, that holds the model files.
pub const MODEL_BASE_URL: &'static str = "https://huggingface.co/ggerganov/whisper.cpp/resolve/main";

/// The address of the file of the model called `model_name`.
pub open spec fn model_url(model_name: Seq<char>) -> Seq<char> {
    MODEL_BASE_URL@ + "/ggml-"@ + model_name + ".bin"@
}

/// The address from which the model called `model_name` is downloaded.
pub fn generate_url(model_name: &str) -> (url: String)
    ensures
        url@ == model_url(model_name@),
{
    let mut url = String::from_str(MODEL_BASE_URL);
    url.append("/ggml-");
    url.append(model_name);
    url.append(".bin");
    url
}

/// Whether a download shows its progress: it does where messages are shown
/// and the size of the file is known and not zero.
pub fn shows_progress(silent: bool, total_size: Option<u64>) -> (shown: bool)
    ensures
        shown == (!silent && total_size is Some && total_size->0 > 0),
{
    match total_size {
        Some(size) => !silent && size > 0,
        None => false,
    }
}

} // verus!
