//! The options builder: from a dynamically-keyed configuration mapping to a
//! typed options record, validating and compiling the one embedded regular
//! expression and the one output-format enumerant.
//!
//! Unrecognized keys are silently ignored; a recognized key present with the
//! wrong dynamic type fails with the type-extraction error naming the key.

use vstd::prelude::*;

use crate::errors::BridgeError;
use crate::errors::ErrModel;
use crate::value::host_entries_m;
use crate::value::lemma_host_entries_m_index;
use crate::value::HostModel;
use crate::value::HostValue;

verus! {

broadcast use vstd::std_specs::vec::group_vec_axioms;

/// The fixed output-format enumeration of the diff core.
#[derive(Debug, Clone, Copy, PartialEq, Eq, Structural)]
pub enum OutputKind {
    Diffai,
    Json,
    Yaml,
}

/// Whether `c` is accepted where the lowercase letter `p` is expected:
/// either `c` is `p` itself, or `p` is an ASCII lowercase letter and `c` its
/// uppercase counterpart.
pub open spec fn char_ci_eq(c: char, p: char) -> bool {
    c == p || (97 <= (p as u32) <= 122 && (c as u32) == (p as u32) - 32)
}

/// Whether `s` matches the ASCII lowercase pattern `pat`, ignoring ASCII
/// case.
pub open spec fn str_ci_eq(s: Seq<char>, pat: Seq<char>) -> bool {
    s.len() == pat.len() && (forall|i: int| 0 <= i < s.len() ==> char_ci_eq(s[i], pat[i]))
}

fn str_ci_eq_exec(s: &str, pat: &str) -> (r: bool)
    ensures
        r == str_ci_eq(s@, pat@),
{
    let n = s.unicode_len();
    if n != pat.unicode_len() {
        return false;
    }
    let mut i: usize = 0;
    while i < n
        invariant
            0 <= i <= n,
            n == s@.len(),
            n == pat@.len(),
            forall|j: int| 0 <= j < i ==> char_ci_eq(s@[j], pat@[j]),
        decreases n - i,
    {
        let c = s.get_char(i);
        let p = pat.get_char(i);
        let cu = c as u32;
        let pu = p as u32;
        if !(c == p || (97 <= pu && pu <= 122 && cu == pu - 32)) {
            return false;
        }
        i += 1;
    }
    true
}

/// Which output-format enumerant a format name denotes: the names
/// `"diffai"`, `"json"`, `"yaml"` and the alias `"yml"`, each accepted
/// without regard to ASCII case; every other name denotes none.
pub open spec fn parse_format_model(s: Seq<char>) -> Option<OutputKind> {
    if str_ci_eq(s, "diffai"@) {
        Some(OutputKind::Diffai)
    } else if str_ci_eq(s, "json"@) {
        Some(OutputKind::Json)
    } else if str_ci_eq(s, "yaml"@) {
        Some(OutputKind::Yaml)
    } else if str_ci_eq(s, "yml"@) {
        Some(OutputKind::Yaml)
    } else {
        None
    }
}

/// Parse an output-format name against the fixed enumeration, failing with
/// `InvalidOutputFormat` on every unrecognized name.
pub fn parse_output_format(s: &str) -> (r: Result<OutputKind, BridgeError>)
    ensures
        match parse_format_model(s@) {
            Some(k) => r == Ok::<OutputKind, BridgeError>(k),
            None => (r matches Err(e) && e@ == ErrModel::InvalidOutputFormat(s@)),
        },
{
    if str_ci_eq_exec(s, "diffai") {
        Ok(OutputKind::Diffai)
    } else if str_ci_eq_exec(s, "json") {
        Ok(OutputKind::Json)
    } else if str_ci_eq_exec(s, "yaml") {
        Ok(OutputKind::Yaml)
    } else if str_ci_eq_exec(s, "yml") {
        Ok(OutputKind::Yaml)
    } else {
        Err(BridgeError::InvalidOutputFormat(s.to_owned()))
    }
}

#[verifier::external_type_specification]
#[verifier::external_body]
pub struct ExRegex(regex::Regex);

/// What compiling a pattern with the regular-expression engine produces:
/// acceptance, or the compiler's message. It depends on the pattern alone.
pub uninterp spec fn regex_outcome(pattern: Seq<char>) -> Result<(), Seq<char>>;

/// Whether the regular-expression engine accepts a pattern.
pub open spec fn regex_compiles(pattern: Seq<char>) -> bool {
    regex_outcome(pattern) is Ok
}

/// The engine's message on a pattern it rejects.
pub open spec fn regex_message(pattern: Seq<char>) -> Seq<char> {
    match regex_outcome(pattern) {
        Ok(u) => Seq::empty(),
        Err(m) => m,
    }
}

/// Relies on regex::Regex::new: compilation succeeds or fails, with its
/// message, as a function of the pattern alone.
#[verifier::external_body]
fn compile_regex(pattern: &String) -> (r: Result<regex::Regex, String>)
    ensures
        r is Ok <==> regex_outcome(pattern@) is Ok,
        (r matches Err(m) ==> regex_outcome(pattern@) matches Err(em) && m@ == em),
{
    regex::Regex::new(pattern).map_err(|e| e.to_string())
}

/// A compiled regular expression, kept beside the pattern text it was
/// compiled from.
pub struct CompiledRegex {
    pub pattern: String,
    pub regex: regex::Regex,
}

impl View for CompiledRegex {
    type V = Seq<char>;

    open spec fn view(&self) -> Seq<char> {
        self.pattern@
    }
}

/// The typed options record handed to the diff core. Every field is
/// optional and empty by default. The `epsilon` field holds the raw bit
/// pattern of an IEEE-754 double.
pub struct DiffOptions {
    pub epsilon: Option<u64>,
    pub array_id_key: Option<String>,
    pub ignore_keys_regex: Option<CompiledRegex>,
    pub path_filter: Option<String>,
    pub output_format: Option<OutputKind>,
}

/// Mathematical model of a `DiffOptions`: the compiled regular expression
/// is represented by its pattern text.
pub struct OptModel {
    pub epsilon: Option<u64>,
    pub array_id_key: Option<Seq<char>>,
    pub ignore_keys_regex: Option<Seq<char>>,
    pub path_filter: Option<Seq<char>>,
    pub output_format: Option<OutputKind>,
}

impl View for DiffOptions {
    type V = OptModel;

    open spec fn view(&self) -> OptModel {
        OptModel {
            epsilon: self.epsilon,
            array_id_key: match self.array_id_key {
                Some(s) => Some(s@),
                None => None,
            },
            ignore_keys_regex: match self.ignore_keys_regex {
                Some(cr) => Some(cr@),
                None => None,
            },
            path_filter: match self.path_filter {
                Some(s) => Some(s@),
                None => None,
            },
            output_format: self.output_format,
        }
    }
}

/// The options record with every optional field empty.
pub open spec fn default_opts_model() -> OptModel {
    OptModel {
        epsilon: None,
        array_id_key: None,
        ignore_keys_regex: None,
        path_filter: None,
        output_format: None,
    }
}

/// The first value under the given key in a configuration mapping's
/// entries, earlier entries taking precedence.
pub open spec fn host_get(entries: Seq<(Seq<char>, HostModel)>, key: Seq<char>) -> Option<
    HostModel,
>
    decreases entries,
{
    if entries.len() == 0 {
        None
    } else if entries[0].0 == key {
        Some(entries[0].1)
    } else {
        host_get(entries.subrange(1, entries.len() as int), key)
    }
}

/// Find the first value under the given key in a configuration mapping.
#[verifier::loop_isolation(false)]
fn host_find<'a>(entries: &'a Vec<(String, HostValue)>, key: &String) -> (r: Option<
    &'a HostValue,
>)
    ensures
        match r {
            Some(v) => host_get(host_entries_m(entries@), key@) == Some(v@),
            None => host_get(host_entries_m(entries@), key@) is None,
        },
{
    proof {
        lemma_host_entries_m_index(entries@);
    }
    let ghost em = host_entries_m(entries@);
    proof {
        assert(em.skip(0) =~= em);
    }
    let mut idx: usize = 0;
    while idx < entries.len()
        invariant
            idx <= entries.len(),
            host_get(em, key@) == host_get(em.skip(idx as int), key@),
        decreases entries.len() - idx,
    {
        proof {
            assert(em[idx as int] == (entries@[idx as int].0@, entries@[idx as int].1.m()));
            assert(em.skip(idx as int)[0] == em[idx as int]);
        }
        if entries[idx].0 == *key {
            return Some(&entries[idx].1);
        }
        proof {
            assert(em.skip(idx as int).subrange(1, em.skip(idx as int).len() as int) =~= em.skip(
                idx + 1,
            ));
        }
        idx += 1;
    }
    proof {
        assert(em.skip(entries.len() as int) =~= Seq::<(Seq<char>, HostModel)>::empty());
    }
    None
}

/// The `epsilon` or any other floating-point key: absent, present as a
/// float, or present with the wrong dynamic type.
pub open spec fn opt_float(entries: Seq<(Seq<char>, HostModel)>, key: Seq<char>) -> Result<
    Option<u64>,
    ErrModel,
> {
    match host_get(entries, key) {
        None => Ok(None),
        Some(v) => match v {
            HostModel::Float(bits) => Ok(Some(bits)),
            _ => Err(ErrModel::WrongType(key)),
        },
    }
}

/// A text-valued key: absent, present as text, or present with the wrong
/// dynamic type.
pub open spec fn opt_text(entries: Seq<(Seq<char>, HostModel)>, key: Seq<char>) -> Result<
    Option<Seq<char>>,
    ErrModel,
> {
    match host_get(entries, key) {
        None => Ok(None),
        Some(v) => match v {
            HostModel::Str(s) => Ok(Some(s)),
            _ => Err(ErrModel::WrongType(key)),
        },
    }
}

/// The `ignore_keys_regex` key: its text must compile as a regular
/// expression, else the build fails with `InvalidRegex` carrying the
/// pattern and the compiler's message.
pub open spec fn opt_regex(entries: Seq<(Seq<char>, HostModel)>) -> Result<
    Option<Seq<char>>,
    ErrModel,
> {
    match host_get(entries, "ignore_keys_regex"@) {
        None => Ok(None),
        Some(v) => match v {
            HostModel::Str(p) => if regex_compiles(p) {
                Ok(Some(p))
            } else {
                Err(ErrModel::InvalidRegex(p, regex_message(p)))
            },
            _ => Err(ErrModel::WrongType("ignore_keys_regex"@)),
        },
    }
}

/// The `output_format` key: its text must name one of the fixed formats,
/// else the build fails with `InvalidOutputFormat`.
pub open spec fn opt_format(entries: Seq<(Seq<char>, HostModel)>) -> Result<
    Option<OutputKind>,
    ErrModel,
> {
    match host_get(entries, "output_format"@) {
        None => Ok(None),
        Some(v) => match v {
            HostModel::Str(s) => match parse_format_model(s) {
                Some(k) => Ok(Some(k)),
                None => Err(ErrModel::InvalidOutputFormat(s)),
            },
            _ => Err(ErrModel::WrongType("output_format"@)),
        },
    }
}

/// What building produces on a configuration mapping's entries: the five
/// recognized keys read in order, the first failure aborting the build.
pub open spec fn build_entries_model(entries: Seq<(Seq<char>, HostModel)>) -> Result<
    OptModel,
    ErrModel,
> {
    match opt_float(entries, "epsilon"@) {
        Err(e) => Err(e),
        Ok(epsilon) => match opt_text(entries, "array_id_key"@) {
            Err(e) => Err(e),
            Ok(array_id_key) => match opt_regex(entries) {
                Err(e) => Err(e),
                Ok(ignore_keys_regex) => match opt_text(entries, "path_filter"@) {
                    Err(e) => Err(e),
                    Ok(path_filter) => match opt_format(entries) {
                        Err(e) => Err(e),
                        Ok(output_format) => Ok(
                            OptModel {
                                epsilon,
                                array_id_key,
                                ignore_keys_regex,
                                path_filter,
                                output_format,
                            },
                        ),
                    },
                },
            },
        },
    }
}

/// What building produces: all-default options with no configuration, else
/// the entries of the configuration mapping, read as above.
pub open spec fn build_model(kwargs: Option<Seq<(Seq<char>, HostModel)>>) -> Result<
    OptModel,
    ErrModel,
> {
    match kwargs {
        None => Ok(default_opts_model()),
        Some(entries) => build_entries_model(entries),
    }
}

/// The entries of an optional configuration mapping.
pub open spec fn kwargs_m(kwargs: Option<&HostValue>) -> Option<Seq<(Seq<char>, HostModel)>> {
    match kwargs {
        None => None,
        Some(h) => match h@ {
            HostModel::Dict(entries) => Some(entries),
            _ => None,
        },
    }
}

/// A build outcome, in model terms.
pub open spec fn opts_result_m(r: Result<DiffOptions, BridgeError>) -> Result<
    OptModel,
    ErrModel,
> {
    match r {
        Ok(o) => Ok(o@),
        Err(e) => Err(e@),
    }
}

/// Build a typed options record from an optional configuration mapping.
///
/// With no configuration, every optional field is empty. Otherwise the five
/// recognized keys are read in order — `epsilon`, `array_id_key`,
/// `ignore_keys_regex`, `path_filter`, `output_format` — and unrecognized
/// keys are silently ignored.
pub fn build_options(kwargs: Option<&HostValue>) -> (r: Result<DiffOptions, BridgeError>)
    requires
        (kwargs matches Some(h) ==> h@ matches HostModel::Dict(entries)),
    ensures
        opts_result_m(r) == build_model(kwargs_m(kwargs)),
{
    let h = match kwargs {
        None => {
            return Ok(
                DiffOptions {
                    epsilon: None,
                    array_id_key: None,
                    ignore_keys_regex: None,
                    path_filter: None,
                    output_format: None,
                },
            );
        },
        Some(h) => h,
    };
    match h {
        HostValue::Dict(entries) => {
            proof {
                lemma_host_entries_m_index(entries@);
            }
            let epsilon: Option<u64> = match host_find(entries, &"epsilon".to_owned()) {
                None => None,
                Some(v) => match v {
                    HostValue::Float(bits) => Some(*bits),
                    _ => {
                        return Err(BridgeError::WrongType("epsilon".to_owned()));
                    },
                },
            };
            let array_id_key: Option<String> = match host_find(
                entries,
                &"array_id_key".to_owned(),
            ) {
                None => None,
                Some(v) => match v {
                    HostValue::Str(s) => Some(s.clone()),
                    _ => {
                        return Err(BridgeError::WrongType("array_id_key".to_owned()));
                    },
                },
            };
            let ignore_keys_regex: Option<CompiledRegex> = match host_find(
                entries,
                &"ignore_keys_regex".to_owned(),
            ) {
                None => None,
                Some(v) => match v {
                    HostValue::Str(p) => match compile_regex(p) {
                        Ok(re) => Some(CompiledRegex { pattern: p.clone(), regex: re }),
                        Err(msg) => {
                            return Err(BridgeError::InvalidRegex(p.clone(), msg));
                        },
                    },
                    _ => {
                        return Err(BridgeError::WrongType("ignore_keys_regex".to_owned()));
                    },
                },
            };
            let path_filter: Option<String> = match host_find(
                entries,
                &"path_filter".to_owned(),
            ) {
                None => None,
                Some(v) => match v {
                    HostValue::Str(s) => Some(s.clone()),
                    _ => {
                        return Err(BridgeError::WrongType("path_filter".to_owned()));
                    },
                },
            };
            let output_format: Option<OutputKind> = match host_find(
                entries,
                &"output_format".to_owned(),
            ) {
                None => None,
                Some(v) => match v {
                    HostValue::Str(s) => match parse_output_format(s.as_str()) {
                        Ok(k) => Some(k),
                        Err(e) => {
                            return Err(e);
                        },
                    },
                    _ => {
                        return Err(BridgeError::WrongType("output_format".to_owned()));
                    },
                },
            };
            Ok(
                DiffOptions {
                    epsilon,
                    array_id_key,
                    ignore_keys_regex,
                    path_filter,
                    output_format,
                },
            )
        },
        _ => {
            proof {
                assert(false);
            }
            Err(BridgeError::UnsupportedType)
        },
    }
}

} // verus!
