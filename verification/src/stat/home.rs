//! Finding the home directory of the user who is logged in, from the output of two
//! shell commands.

use crate::stat::Stat;
use crate::text::{
    chars_of, is_space, pieces, split, split_at_char, substring, trim, trim_end, trim_range,
    trim_start,
};
use vstd::prelude::*;
use vstd::utf8::{decode_utf8, valid_utf8};

verus! {

/// How a shell command ended: whether its exit status reports success, and what it
/// wrote to its standard output.
#[derive(Debug, Clone, PartialEq, Eq)]
pub struct CommandOutput {
    pub success: bool,
    pub stdout: Vec<u8>,
}

/// The text that `bytes` become when they are read as UTF-8 and every part that is
/// not valid is replaced.
pub uninterp spec fn utf8_lossy(bytes: Seq<u8>) -> Seq<char>;

/// `String::from_utf8_lossy` of the standard library. The result is a function of the
/// bytes alone; for bytes that are valid UTF-8 it is the text they encode.
#[verifier::external_body]
fn text_from_utf8_lossy(bytes: &Vec<u8>) -> (text: String)
    ensures
        text@ == utf8_lossy(bytes@),
        valid_utf8(bytes@) ==> text@ == decode_utf8(bytes@),
{
    String::from_utf8_lossy(bytes).into_owned()
}

/// The text that `bytes` stand for: the text they encode where they are valid UTF-8,
/// and else the text with a replacement for every part that is not valid.
pub open spec fn text_of_bytes(bytes: Seq<u8>) -> Seq<char> {
    if valid_utf8(bytes) {
        decode_utf8(bytes)
    } else {
        utf8_lossy(bytes)
    }
}

/// The text that counts as the output of a command: what it wrote if it ran and
/// reported success, the empty text otherwise.
pub open spec fn output_text(outcome: Option<CommandOutput>) -> Seq<char> {
    match outcome {
        Some(output) => if output.success {
            text_of_bytes(output.stdout@)
        } else {
            Seq::empty()
        },
        None => Seq::empty(),
    }
}

/// The user name that the output of the shell names: the output without the white
/// space around it, so without the line feed that ends it.
pub open spec fn username_in(output: Seq<char>) -> Seq<char> {
    trim(output)
}

/// The sixth field of a record whose fields are separated by colons, the white space
/// around the record set aside; the empty text where the record has fewer fields.
pub open spec fn home_dir_field(record: Seq<char>) -> Seq<char> {
    let fields = split(trim(record), ':');
    if fields.len() >= 6 {
        fields[5]
    } else {
        Seq::empty()
    }
}

/// The command that looks up the record of a user, for a user name that is not empty.
pub open spec fn lookup_command(username: Seq<char>) -> Seq<char> {
    "getent passwd "@ + username
}

/// The home directory of the user: empty where the user name is empty or the lookup
/// gave no output, else the home directory field of the lookup's output.
pub open spec fn home_dir_of(username: Seq<char>, lookup: Option<CommandOutput>) -> Seq<char> {
    if username.len() == 0 {
        Seq::empty()
    } else {
        home_dir_field(output_text(lookup))
    }
}

/// An output that is a name and the line feed after it names that name. This holds of
/// every name without white space at its ends, the empty name among them: an output of
/// nothing but a line feed names nobody.
pub proof fn lemma_username_without_line_end(name: Seq<char>)
    requires
        name.len() > 0 ==> !is_space(name[0]) && !is_space(name.last()),
    ensures
        username_in(name.push('\n')) == name,
{
    let output = name.push('\n');
    let empty = Seq::<char>::empty();
    assert(is_space(output.last()));
    assert(output.drop_last() =~= name);
    if name.len() == 0 {
        assert(output.drop_first() =~= empty);
        assert(trim_start(empty) == empty);
        assert(trim_start(output) == empty);
        assert(trim_end(empty) == empty);
    } else {
        assert(output[0] == name[0]);
        assert(trim_start(output) == output);
        assert(trim_end(name) == name);
        assert(trim_end(output) == name);
    }
}

/// A command that could not be run, or that did not report success, names nobody.
pub proof fn lemma_no_username(outcome: Option<CommandOutput>)
    requires
        outcome is None || !outcome.unwrap().success,
    ensures
        username_in(output_text(outcome)) == Seq::<char>::empty(),
{
}

/// No home directory is found for an empty user name, nor from a lookup that could not
/// be run or that did not report success.
pub proof fn lemma_no_home_dir(username: Seq<char>, lookup: Option<CommandOutput>)
    requires
        username.len() == 0 || lookup is None || !lookup.unwrap().success,
    ensures
        home_dir_of(username, lookup) == Seq::<char>::empty(),
{
    let empty = Seq::<char>::empty();
    assert(trim(empty) =~= empty);
    assert(split(empty, ':') =~= seq![empty]);
}

impl Stat {
    /// The output of a command as text. `outcome` is `None` where the command could
    /// not be run.
    pub fn get_command_output(outcome: Option<CommandOutput>) -> (content: String)
        ensures
            content@ == output_text(outcome),
    {
        match outcome {
            Some(output) => {
                if output.success {
                    return text_from_utf8_lossy(&output.stdout);
                }
                String::new()
            },
            None => String::new(),
        }
    }

    /// The command whose output names the user who is logged in.
    pub fn username_command() -> (command: String)
        ensures
            command@ == "echo $USER"@,
    {
        "echo $USER".to_owned()
    }

    /// The user name that the output of `username_command` names.
    pub fn username_from_output(output: &str) -> (username: String)
        ensures
            username@ == username_in(output@),
    {
        let chars = chars_of(output);
        let (lo, hi) = trim_range(&chars, 0, chars.len());
        proof {
            assert(chars@.subrange(0, chars.len() as int) =~= chars@);
        }
        substring(output, lo, hi)
    }

    /// The name of the user who is logged in, from the outcome of `username_command`.
    /// The name is empty where the command failed or named nobody.
    pub fn get_current_login_username(outcome: Option<CommandOutput>) -> (username: String)
        ensures
            username@ == username_in(output_text(outcome)),
    {
        let content = Self::get_command_output(outcome);
        Self::username_from_output(content.as_str())
    }

    /// The command that looks up the record of `username`; `None` for an empty name,
    /// for which nothing is looked up.
    pub fn home_dir_command(username: &str) -> (command: Option<String>)
        ensures
            command is Some <==> username@.len() > 0,
            command matches Some(c) ==> c@ == lookup_command(username@),
    {
        if username.is_empty() {
            return None;
        }
        Some("getent passwd ".to_owned().concat(username))
    }

    /// The home directory that a user's record names.
    pub fn home_dir_from_record(record: &str) -> (home_dir: String)
        ensures
            home_dir@ == home_dir_field(record@),
    {
        let chars = chars_of(record);
        let (lo, hi) = trim_range(&chars, 0, chars.len());
        let fields = split_at_char(&chars, lo, hi, ':');
        proof {
            assert(chars@.subrange(0, chars.len() as int) =~= chars@);
        }
        if fields.len() >= 6 {
            let (from, to) = fields[5];
            proof {
                assert(pieces(chars@, fields@)[5] == chars@.subrange(from as int, to as int));
            }
            return substring(record, from, to);
        }
        String::new()
    }

    /// The home directory of `username`, from the outcome of the command that
    /// `home_dir_command` gave for that name. Every failure gives the empty text.
    pub fn get_user_home_dir(username: &str, lookup: Option<CommandOutput>) -> (home_dir: String)
        ensures
            home_dir@ == home_dir_of(username@, lookup),
    {
        if username.is_empty() {
            return String::new();
        }
        let content = Self::get_command_output(lookup);
        Self::home_dir_from_record(content.as_str())
    }
}

} // verus!
