//! Settings of the inference backend, and the model architecture that they name.

use vstd::prelude::*;
use vstd::string::StringExecFns;

verus! {

/// The most tokens that one inference may produce.
pub const MAX_INFERENCE_TOKENS: usize = 140;

/// Where the model lies and which architecture it has.
pub struct Config {
    pub model_path: String,
    pub model_arch: String,
}

/// A model architecture that the backend can load.
#[derive(PartialEq, Eq, Structural, Clone, Copy, Debug)]
pub enum ModelArch {
    Llama,
    Gpt2,
}

/// Whether `c` is white space in Unicode's sense (the `White_Space` property).
pub open spec fn is_white_space(c: char) -> bool {
    ('\u{9}' <= c && c <= '\u{d}') || c == ' ' || c == '\u{85}' || c == '\u{a0}' || c
        == '\u{1680}' || ('\u{2000}' <= c && c <= '\u{200a}') || c == '\u{2028}' || c
        == '\u{2029}' || c == '\u{202f}' || c == '\u{205f}' || c == '\u{3000}'
}

/// `s` without its leading white space.
pub open spec fn trim_start_of(s: Seq<char>) -> Seq<char>
    decreases s.len(),
{
    if s.len() > 0 && is_white_space(s[0]) {
        trim_start_of(s.drop_first())
    } else {
        s
    }
}

/// `s` without its trailing white space.
pub open spec fn trim_end_of(s: Seq<char>) -> Seq<char>
    decreases s.len(),
{
    if s.len() > 0 && is_white_space(s.last()) {
        trim_end_of(s.drop_last())
    } else {
        s
    }
}

/// `s` without its leading and trailing white space.
pub open spec fn trim_of(s: Seq<char>) -> Seq<char> {
    trim_end_of(trim_start_of(s))
}

/// The lower-case form of `s`, by Unicode's case mapping.
pub uninterp spec fn lower_of(s: Seq<char>) -> Seq<char>;

/// Relies on `str::trim`: `s` without leading and trailing `White_Space` characters.
#[verifier::external_body]
fn trimmed(s: &str) -> (r: &str)
    ensures
        r@ == trim_of(s@),
{
    s.trim()
}

/// Relies on `str::to_lowercase`: the result depends on the characters alone.
#[verifier::external_body]
fn lowercase(s: &str) -> (r: String)
    ensures
        r@ == lower_of(s@),
{
    s.to_lowercase()
}

/// The architecture that a trimmed, lower-case name stands for.
pub open spec fn arch_of(name: Seq<char>) -> Option<ModelArch> {
    if name == "llama"@ || name == "llama-2"@ || name == "llama2"@ {
        Some(ModelArch::Llama)
    } else if name == "gpt2"@ {
        Some(ModelArch::Gpt2)
    } else {
        None
    }
}

/// The architecture that `name`, already trimmed and in lower case, stands for;
/// `None` for a name that no supported architecture has.
pub fn architecture_named(name: &str) -> (r: Option<ModelArch>)
    ensures
        r == arch_of(name@),
{
    let n = String::from_str(name);
    if n == String::from_str("llama") || n == String::from_str("llama-2") || n
        == String::from_str("llama2") {
        Some(ModelArch::Llama)
    } else if n == String::from_str("gpt2") {
        Some(ModelArch::Gpt2)
    } else {
        None
    }
}

impl Config {
    /// The settings used when none are given: an OpenLLaMA 3B model in f16.
    pub fn default() -> (r: Config)
        ensures
            r.model_path@ == "open_llama_3b-f16.bin"@,
            r.model_arch@ == "llama"@,
    {
        Config {
            model_path: String::from_str("open_llama_3b-f16.bin"),
            model_arch: String::from_str("llama"),
        }
    }

    /// The architecture that `model_arch` names, ignoring surrounding white space
    /// and case; `None` where it names none that is supported.
    pub fn architecture(&self) -> (r: Option<ModelArch>)
        ensures
            r == arch_of(lower_of(trim_of(self.model_arch@))),
    {
        let t = trimmed(self.model_arch.as_str());
        let l = lowercase(t);
        architecture_named(l.as_str())
    }
}

} // verus!
