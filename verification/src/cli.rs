//! Command-line argument handling of the BASS test tool: options given as
//! `--name value` or `--name=value`, positional paths, and the settings
//! and stopping rule of the `play` command.

use crate::engine::{ActiveState, OutputBackend};
use crate::error::{BassError, Result};
use vstd::prelude::*;
use vstd::string::*;

verus! {

/// The texts of a list of arguments.
pub open spec fn arg_texts(args: Seq<String>) -> Seq<Seq<char>> {
    args.map_values(|arg: String| arg@)
}

/// Whether `text` begins with `prefix`.
pub open spec fn has_prefix(text: Seq<char>, prefix: Seq<char>) -> bool {
    prefix.len() <= text.len() && text.subrange(0, prefix.len() as int) == prefix
}

/// Whether two texts are equal.
fn text_equals(a: &str, b: &str) -> (equal: bool)
    ensures
        equal == (a@ == b@),
{
    let n = a.unicode_len();
    if n != b.unicode_len() {
        return false;
    }
    let mut i: usize = 0;
    while i < n
        invariant
            n == a@.len(),
            n == b@.len(),
            i <= n,
            forall|j: int| 0 <= j < i ==> a@[j] == b@[j],
        decreases n - i,
    {
        if a.get_char(i) != b.get_char(i) {
            return false;
        }
        i = i + 1;
    }
    assert(a@ =~= b@);
    true
}

/// Whether `text` begins with `prefix`.
fn starts_with_text(text: &str, prefix: &str) -> (starts: bool)
    ensures
        starts == has_prefix(text@, prefix@),
{
    let n = prefix.unicode_len();
    if n > text.unicode_len() {
        return false;
    }
    let mut i: usize = 0;
    while i < n
        invariant
            n == prefix@.len(),
            n <= text@.len(),
            i <= n,
            forall|j: int| 0 <= j < i ==> text@[j] == prefix@[j],
        decreases n - i,
    {
        if text.get_char(i) != prefix.get_char(i) {
            assert(text@.subrange(0, n as int)[i as int] != prefix@[i as int]);
            return false;
        }
        i = i + 1;
    }
    assert(text@.subrange(0, n as int) =~= prefix@);
    true
}

/// What argument `i` says of option `name`: the text after `name=` when it
/// has that form; the next argument when it is `name` itself and one
/// follows; nothing otherwise.
pub open spec fn option_at(args: Seq<Seq<char>>, i: int, name: Seq<char>) -> Option<Seq<char>> {
    let arg = args[i];
    let key = name.push('=');
    if has_prefix(arg, key) {
        Some(arg.subrange(key.len() as int, arg.len() as int))
    } else if arg == name {
        if i + 1 < args.len() {
            Some(args[i + 1])
        } else {
            None
        }
    } else {
        None
    }
}

/// The value of option `name` from argument `i` on: the first that an
/// argument gives.
pub open spec fn option_value_from(args: Seq<Seq<char>>, i: int, name: Seq<char>) -> Option<Seq<char>>
    decreases args.len() - i,
{
    if i < 0 || i >= args.len() {
        None
    } else {
        match option_at(args, i, name) {
            Some(value) => Some(value),
            None => option_value_from(args, i + 1, name),
        }
    }
}

/// The value of option `name`, given as `name=value` or as `name value`;
/// the first argument that gives one wins.
pub fn option_value(args: &[String], name: &str) -> (value: Option<String>)
    ensures
        value matches Some(v) ==> option_value_from(arg_texts(args@), 0, name@) == Some(v@),
        value is None ==> option_value_from(arg_texts(args@), 0, name@) is None,
{
    let ghost texts = arg_texts(args@);
    let key = String::from_str(name).concat("=");
    assert(key@ == name@.push('=')) by {
        reveal_strlit("=");
        assert(key@ =~= name@.push('='));
    }
    let mut i: usize = 0;
    while i < args.len()
        invariant
            i <= args.len(),
            texts == arg_texts(args@),
            texts.len() == args@.len(),
            key@ == name@.push('='),
            option_value_from(texts, 0, name@) == option_value_from(texts, i as int, name@),
        decreases args.len() - i,
    {
        let arg: &str = args[i].as_str();
        assert(arg@ == texts[i as int]);
        if starts_with_text(arg, key.as_str()) {
            let rest = arg.substring_char(key.unicode_len(), arg.unicode_len());
            return Some(rest.to_owned());
        } else if text_equals(arg, name) {
            if i + 1 < args.len() {
                assert(texts[i + 1] == args@[i + 1]@);
                return Some(args[i + 1].clone());
            }
        }
        i = i + 1;
    }
    None
}

/// Whether an argument is an option that takes the next argument as its
/// value.
pub open spec fn is_value_option(arg: Seq<char>) -> bool {
    ||| arg == "--bass"@
    ||| arg == "--bass-fx"@
    ||| arg == "--bassmidi"@
    ||| arg == "--dll-dir"@
    ||| arg == "--duration"@
    ||| arg == "--max-polyphony"@
}

/// Whether an argument is an option that takes the next argument as its
/// value.
fn value_option(arg: &str) -> (is: bool)
    ensures
        is == is_value_option(arg@),
{
    text_equals(arg, "--bass") || text_equals(arg, "--bass-fx") || text_equals(arg, "--bassmidi")
        || text_equals(arg, "--dll-dir") || text_equals(arg, "--duration") || text_equals(
        arg,
        "--max-polyphony",
    )
}

/// The positional arguments from argument `i` on, where `skip` says that
/// argument `i` is the value of an option: arguments that are neither
/// options (`--...`) nor option values.
pub open spec fn positional_from(args: Seq<Seq<char>>, i: int, skip: bool) -> Seq<Seq<char>>
    decreases args.len() - i,
{
    if i < 0 || i >= args.len() {
        seq![]
    } else if skip {
        positional_from(args, i + 1, false)
    } else if is_value_option(args[i]) {
        positional_from(args, i + 1, true)
    } else if has_prefix(args[i], "--"@) {
        positional_from(args, i + 1, false)
    } else {
        seq![args[i]] + positional_from(args, i + 1, false)
    }
}

/// The positional arguments: those that are neither options (`--...`) nor
/// the values of the options that take one, in their order.
pub fn positional_paths(args: &[String]) -> (paths: Vec<String>)
    ensures
        arg_texts(paths@) == positional_from(arg_texts(args@), 0, false),
{
    let ghost texts = arg_texts(args@);
    let mut result: Vec<String> = Vec::new();
    let mut skip_next = false;
    let mut i: usize = 0;
    while i < args.len()
        invariant
            i <= args.len(),
            texts == arg_texts(args@),
            texts.len() == args@.len(),
            arg_texts(result@) + positional_from(texts, i as int, skip_next) == positional_from(
                texts,
                0,
                false,
            ),
        decreases args.len() - i,
    {
        let arg: &str = args[i].as_str();
        assert(arg@ == texts[i as int]);
        let ghost before = arg_texts(result@);
        if skip_next {
            skip_next = false;
        } else if value_option(arg) {
            skip_next = true;
        } else if starts_with_text(arg, "--") {
        } else {
            result.push(args[i].clone());
            assert(arg_texts(result@) =~= before.push(texts[i as int]));
            assert(before + positional_from(texts, i as int, false) =~= arg_texts(result@)
                + positional_from(texts, i + 1, false));
        }
        i = i + 1;
    }
    assert(positional_from(texts, i as int, skip_next) =~= Seq::<Seq<char>>::empty());
    assert(arg_texts(result@) =~= arg_texts(result@) + Seq::<Seq<char>>::empty());
    result
}

/// The first positional argument, or an invalid-argument error with
/// `message` when there is none.
pub fn required_path(args: &[String], message: &'static str) -> (path: Result<String>)
    ensures
        positional_from(arg_texts(args@), 0, false).len() > 0 ==> (path matches Ok(p) && p@
            == positional_from(arg_texts(args@), 0, false)[0]),
        positional_from(arg_texts(args@), 0, false).len() == 0 ==> (path matches Err(
            BassError::InvalidInput { kind, message: m },
        ) && kind@ == "argument"@ && m@ == message@),
{
    let paths = positional_paths(args);
    if paths.len() > 0 {
        assert(arg_texts(paths@)[0] == paths@[0]@);
        Ok(paths[0].clone())
    } else {
        Err(BassError::InvalidInput { kind: "argument", message: String::from_str(message) })
    }
}


/// Whether one of the arguments is exactly `text`.
fn has_arg(args: &[String], text: &str) -> (found: bool)
    ensures
        found == arg_texts(args@).contains(text@),
{
    let ghost texts = arg_texts(args@);
    let mut i: usize = 0;
    while i < args.len()
        invariant
            i <= args.len(),
            texts == arg_texts(args@),
            texts.len() == args@.len(),
            forall|j: int| 0 <= j < i ==> texts[j] != text@,
        decreases args.len() - i,
    {
        assert(texts[i as int] == args@[i as int]@);
        if text_equals(args[i].as_str(), text) {
            return true;
        }
        i = i + 1;
    }
    false
}

/// Whether a character is an ASCII decimal digit.
pub open spec fn is_ascii_digit(c: char) -> bool {
    '0' <= c && c <= '9'
}

/// The value of a string of decimal digits, most significant first.
pub open spec fn digits_value(digits: Seq<char>) -> nat
    decreases digits.len(),
{
    if digits.len() == 0 {
        0
    } else {
        digits_value(digits.drop_last()) * 10 + ((digits.last() as int - '0' as int) as nat)
    }
}

/// The digits of an unsigned number's text: the text after an optional
/// leading `+`.
pub open spec fn unsigned_digits(text: Seq<char>) -> Seq<char> {
    if text.len() > 0 && text[0] == '+' {
        text.drop_first()
    } else {
        text
    }
}

/// The number that an unsigned integer parse with largest value `max`
/// reads from a text: an optional `+` followed by one or more ASCII digits
/// whose value is at most `max`; any other text gives nothing.
pub open spec fn unsigned_text_value(text: Seq<char>, max: nat) -> Option<nat> {
    let digits = unsigned_digits(text);
    if digits.len() > 0 && (forall|i: int| 0 <= i < digits.len() ==> is_ascii_digit(digits[i]))
        && digits_value(digits) <= max {
        Some(digits_value(digits))
    } else {
        None
    }
}

/// The number that `str::parse::<u64>` reads from a text.
pub open spec fn parsed_u64(text: Seq<char>) -> Option<u64> {
    match unsigned_text_value(text, u64::MAX as nat) {
        Some(value) => Some(value as u64),
        None => None,
    }
}

/// The number that `str::parse::<u32>` reads from a text.
pub open spec fn parsed_u32(text: Seq<char>) -> Option<u32> {
    match unsigned_text_value(text, u32::MAX as nat) {
        Some(value) => Some(value as u32),
        None => None,
    }
}

/// Extending a string of digits never makes its value smaller.
proof fn lemma_digits_value_prefix(digits: Seq<char>, k: int)
    requires
        0 <= k <= digits.len(),
        forall|i: int| 0 <= i < digits.len() ==> is_ascii_digit(digits[i]),
    ensures
        digits_value(digits.take(k)) <= digits_value(digits),
    decreases digits.len(),
{
    if k < digits.len() {
        let shorter = digits.drop_last();
        lemma_digits_value_prefix(shorter, k);
        assert(shorter.take(k) =~= digits.take(k));
    } else {
        assert(digits.take(k) =~= digits);
    }
}

/// The value of the digits of `text` from `start` to `end`.
proof fn lemma_digits_step(text: Seq<char>, start: int, end: int)
    requires
        0 <= start < end <= text.len(),
    ensures
        text.subrange(start, end).drop_last() =~= text.subrange(start, end - 1),
        text.subrange(start, end).last() == text[end - 1],
{
}

/// The number in `text` as an unsigned integer of at most `max`, read as
/// `str::parse` reads unsigned integers.
fn parse_unsigned(text: &str, max: u64) -> (value: Option<u64>)
    requires
        9 <= max,
    ensures
        value matches Some(v) ==> unsigned_text_value(text@, max as nat) == Some(v as nat),
        value is None ==> unsigned_text_value(text@, max as nat) is None,
{
    let n = text.unicode_len();
    let start: usize = if n > 0 && text.get_char(0) == '+' {
        1
    } else {
        0
    };
    let ghost digits = unsigned_digits(text@);
    assert(digits =~= text@.subrange(start as int, n as int));
    if start == n {
        return None;
    }
    let mut value: u64 = 0;
    let mut i: usize = start;
    while i < n
        invariant
            n == text@.len(),
            start <= i <= n,
            start < n,
            digits == unsigned_digits(text@),
            digits =~= text@.subrange(start as int, n as int),
            forall|j: int| start <= j < i ==> is_ascii_digit(text@[j]),
            value as nat == digits_value(text@.subrange(start as int, i as int)),
            value <= max,
            9 <= max,
        decreases n - i,
    {
        let c = text.get_char(i);
        if !('0' <= c && c <= '9') {
            assert(digits[i - start] == text@[i as int]);
            assert(!is_ascii_digit(digits[i - start]));
            assert(!(forall|j: int| 0 <= j < digits.len() ==> is_ascii_digit(digits[j])));
            return None;
        }
        let d: u64 = ((c as u32) - ('0' as u32)) as u64;
        let ghost prefix = text@.subrange(start as int, i + 1);
        proof {
            lemma_digits_step(text@, start as int, i + 1);
            assert(digits_value(prefix) == value * 10 + d);
        }
        if value > (max - d) / 10 {
            proof {
                assert(value * 10 + d > max) by (nonlinear_arith)
                    requires
                        value > (max - d) / 10,
                        d <= 9,
                        9 <= max,
                ;
                if forall|j: int| 0 <= j < digits.len() ==> is_ascii_digit(digits[j]) {
                    lemma_digits_value_prefix(digits, i + 1 - start);
                    assert(digits.take(i + 1 - start) =~= prefix);
                }
            }
            return None;
        }
        assert(value * 10 + d <= max) by (nonlinear_arith)
            requires
                value <= (max - d) / 10,
                d <= 9,
                9 <= max,
        ;
        value = value * 10 + d;
        i = i + 1;
    }
    assert(text@.subrange(start as int, n as int) =~= digits);
    Some(value)
}

/// How the `play` command plays: what, on which backend, whether it reports
/// download progress, for how many seconds at most, and whether the source
/// is a URL.
#[derive(Debug, Clone)]
pub struct PlaySettings {
    pub source: String,
    pub backend: OutputBackend,
    pub watch: bool,
    pub limit_secs: Option<u64>,
    pub is_url: bool,
}

/// Whether a source names a URL: it begins with `http://` or `https://`.
pub open spec fn is_url_text(source: Seq<char>) -> bool {
    has_prefix(source, "http://"@) || has_prefix(source, "https://"@)
}

/// The time limit that a `--duration` value gives: none without the
/// option, otherwise the number read from its value.
pub open spec fn duration_limit(value: Option<Seq<char>>) -> Option<u64> {
    match value {
        None => None,
        Some(text) => parsed_u64(text),
    }
}

/// Whether a `--duration` value is given and is not an integer.
pub open spec fn duration_refused(value: Option<Seq<char>>) -> bool {
    match value {
        None => false,
        Some(text) => parsed_u64(text) is None,
    }
}

/// The settings of the `play` command: the first positional argument is the
/// source (an error when there is none); `--backend=dsound` selects
/// DirectSound; `--watch-buffer` reports progress; `--duration` limits the
/// seconds played (an error when its value is not an integer).
pub fn play_settings(args: &[String]) -> (settings: Result<PlaySettings>)
    ensures
        positional_from(arg_texts(args@), 0, false).len() == 0 ==> (settings matches Err(
            BassError::InvalidInput { kind, message },
        ) && kind@ == "argument"@ && message@ == "play requires a file path or URL"@),
        positional_from(arg_texts(args@), 0, false).len() > 0 && duration_refused(
            option_value_from(arg_texts(args@), 0, "--duration"@),
        ) ==> (settings matches Err(
            BassError::InvalidInput { kind, message },
        ) && kind@ == "duration"@ && message@ == "expected integer seconds"@),
        settings matches Ok(s) ==> {
            &&& positional_from(arg_texts(args@), 0, false).len() > 0
            &&& s.source@ == positional_from(arg_texts(args@), 0, false)[0]
            &&& (s.backend == OutputBackend::DirectSound) == arg_texts(args@).contains(
                "--backend=dsound"@,
            )
            &&& s.watch == arg_texts(args@).contains("--watch-buffer"@)
            &&& s.limit_secs == duration_limit(option_value_from(arg_texts(args@), 0, "--duration"@))
            &&& s.is_url == is_url_text(s.source@)
        },
        positional_from(arg_texts(args@), 0, false).len() > 0 && !duration_refused(
            option_value_from(arg_texts(args@), 0, "--duration"@),
        ) ==> settings is Ok,
{
    let source = required_path(args, "play requires a file path or URL")?;
    let backend = if has_arg(args, "--backend=dsound") {
        OutputBackend::DirectSound
    } else {
        OutputBackend::Wasapi
    };
    let watch = has_arg(args, "--watch-buffer");
    let limit_secs = match option_value(args, "--duration") {
        None => None,
        Some(text) => match parse_unsigned(text.as_str(), u64::MAX) {
            Some(value) => Some(value),
            None => {
                return Err(
                    BassError::InvalidInput {
                        kind: "duration",
                        message: String::from_str("expected integer seconds"),
                    },
                );
            },
        },
    };
    let is_url = starts_with_text(source.as_str(), "http://") || starts_with_text(
        source.as_str(),
        "https://",
    );
    Ok(PlaySettings { source, backend, watch, limit_secs, is_url })
}

/// Whether playback ends: once the time limit, if any, has elapsed, or when
/// a file (not a URL) has stopped playing.
pub fn play_should_stop(limit_secs: Option<u64>, elapsed_secs: u64, is_url: bool, state: ActiveState) -> (stop: bool)
    ensures
        stop == ((limit_secs matches Some(l) && elapsed_secs >= l) || (!is_url && state
            == ActiveState::Stopped)),
{
    let limit_reached = match limit_secs {
        Some(limit) => elapsed_secs >= limit,
        None => false,
    };
    limit_reached || (!is_url && state == ActiveState::Stopped)
}


/// Where a native library comes from: an explicit library file, or a
/// directory holding the standard library names.
#[derive(Debug, Clone, PartialEq, Eq)]
pub enum LibrarySource {
    File(String),
    Directory(String),
}

/// What locating a library from the arguments gives: the value of option
/// `file_option` as a file when it is given; otherwise the value of
/// `--dll-dir` as a directory when that is given; otherwise the argument
/// error with `message`.
pub open spec fn library_source_outcome(
    args: Seq<Seq<char>>,
    file_option: Seq<char>,
    message: Seq<char>,
    result: Result<LibrarySource>,
) -> bool {
    match option_value_from(args, 0, file_option) {
        Some(file) => result matches Ok(LibrarySource::File(f)) && f@ == file,
        None => match option_value_from(args, 0, "--dll-dir"@) {
            Some(directory) => result matches Ok(LibrarySource::Directory(d)) && d@ == directory,
            None => result matches Err(BassError::InvalidInput { kind, message: m })
                && kind@ == "argument"@ && m@ == message,
        },
    }
}

/// Locates a library from the arguments: `file_option` names the file,
/// `--dll-dir` a directory; `message` is the error when neither is given.
fn library_source(args: &[String], file_option: &str, message: &'static str) -> (result: Result<
    LibrarySource,
>)
    ensures
        library_source_outcome(arg_texts(args@), file_option@, message@, result),
{
    if let Some(file) = option_value(args, file_option) {
        return Ok(LibrarySource::File(file));
    }
    if let Some(directory) = option_value(args, "--dll-dir") {
        return Ok(LibrarySource::Directory(directory));
    }
    Err(BassError::InvalidInput { kind: "argument", message: String::from_str(message) })
}

/// Where BASS is loaded from: `--bass PATH` names the library, otherwise
/// `--dll-dir PATH` a directory; one of them is required.
pub fn engine_source(args: &[String]) -> (result: Result<LibrarySource>)
    ensures
        library_source_outcome(
            arg_texts(args@),
            "--bass"@,
            "BASS path is required; use --bass PATH or --dll-dir PATH"@,
            result,
        ),
{
    library_source(args, "--bass", "BASS path is required; use --bass PATH or --dll-dir PATH")
}

/// Where BASSMIDI is loaded from: `--bassmidi PATH` names the library,
/// otherwise `--dll-dir PATH` a directory; one of them is required.
pub fn midi_source(args: &[String]) -> (result: Result<LibrarySource>)
    ensures
        library_source_outcome(
            arg_texts(args@),
            "--bassmidi"@,
            "BASSMIDI path is required; use --bassmidi PATH or --dll-dir PATH"@,
            result,
        ),
{
    library_source(
        args,
        "--bassmidi",
        "BASSMIDI path is required; use --bassmidi PATH or --dll-dir PATH",
    )
}

/// The text of the `--max-polyphony` option: its value, or `0` without it.
pub open spec fn polyphony_text(args: Seq<Seq<char>>) -> Seq<char> {
    match option_value_from(args, 0, "--max-polyphony"@) {
        Some(value) => value,
        None => "0"@,
    }
}

/// The polyphony limit of the `midi` command: the value of
/// `--max-polyphony` (zero without it) read as an unsigned 32-bit integer,
/// or an invalid-input error when it is not one.
pub fn max_polyphony(args: &[String]) -> (result: Result<u32>)
    ensures
        parsed_u32(polyphony_text(arg_texts(args@))) matches Some(n) ==> result == Ok::<u32, BassError>(n),
        parsed_u32(polyphony_text(arg_texts(args@))) is None ==> (result matches Err(
            BassError::InvalidInput { kind, message },
        ) && kind@ == "max-polyphony"@ && message@ == "expected an integer"@),
{
    let text = match option_value(args, "--max-polyphony") {
        Some(value) => value,
        None => String::from_str("0"),
    };
    match parse_unsigned(text.as_str(), u32::MAX as u64) {
        Some(value) => Ok(value as u32),
        None => Err(
            BassError::InvalidInput {
                kind: "max-polyphony",
                message: String::from_str("expected an integer"),
            },
        ),
    }
}

} // verus!
