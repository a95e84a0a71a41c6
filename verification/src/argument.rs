//! The process-edge single-argument rule: exactly one component operand,
//! classified as inline DOTOS text, a DOTOS file, or a signal-encoded file.
//!
//! Whether an operand names an existing path is a question for the file
//! system. The public classifiers ask it and then hand the answer to the
//! `*_given` classifiers, which decide the rest.

use vstd::prelude::*;
use vstd::string::*;

use crate::paths::{file_name_of, std_path_buf_of, std_path_buf_text, std_path_of, std_path_text};

verus! {

/// The argument vector a component was started with, program name excluded.
#[derive(Clone, Debug, PartialEq, Eq)]
pub struct ComponentCommand {
    arguments: Vec<String>,
}

/// The one component operand, classified.
#[derive(Clone, Debug, PartialEq, Eq)]
pub enum ComponentArgument {
    InlineDotos(InlineDotos),
    DotosFile(DotosFile),
    SignalFile(SignalFile),
}

/// Inline DOTOS text given on the command line.
#[derive(Clone, Debug, PartialEq, Eq)]
pub struct InlineDotos {
    text: String,
}

/// The path of an existing file to be read as DOTOS text.
#[derive(Clone, Debug, PartialEq, Eq)]
pub struct DotosFile {
    path: String,
}

/// The path of an existing file to be read as a signal-encoded binary.
#[derive(Clone, Debug, PartialEq, Eq)]
pub struct SignalFile {
    path: String,
}

#[derive(Debug)]
pub enum ArgumentError {
    ArgumentCount { count: usize },
    ExpectedSignalFile,
}

/// The flag every DOTOS-printing client honors to ask for readable output.
pub open spec fn pretty_flag() -> Seq<char> {
    seq!['-', '-', 'p', 'r', 'e', 't', 't', 'y']
}

/// The extension a DOTOS text file carries.
pub open spec fn dotos_extension() -> Seq<char> {
    seq!['d', 'o', 't', 'o', 's']
}

/// The positional operands among `arguments`: every argument but the pretty flag, in order.
pub open spec fn operands_of(arguments: Seq<Seq<char>>) -> Seq<Seq<char>>
    decreases arguments.len(),
{
    if arguments.len() == 0 {
        Seq::empty()
    } else if arguments.last() == pretty_flag() {
        operands_of(arguments.drop_last())
    } else {
        operands_of(arguments.drop_last()).push(arguments.last())
    }
}

/// The index of the last '.' in `name`, or -1 when it has none.
pub open spec fn last_dot_index(name: Seq<char>) -> int
    decreases name.len(),
{
    if name.len() == 0 {
        -1
    } else if name.last() == '.' {
        name.len() - 1
    } else {
        last_dot_index(name.drop_last())
    }
}

/// The extension of a file name as `std::path::Path::extension` documents it:
/// none when the name has no '.', or begins with '.' and has no other;
/// otherwise what follows the last '.'.
pub open spec fn name_extension(name: Seq<char>) -> Option<Seq<char>> {
    let dot = last_dot_index(name);
    if dot <= 0 {
        None
    } else {
        Some(name.skip(dot + 1))
    }
}

/// Whether a path's file name carries the DOTOS extension, given the file
/// name that `std::path::Path::file_name` reports for it.
pub open spec fn is_dotos_file_name(file_name: Option<Seq<char>>) -> bool {
    match file_name {
        Some(name) => name_extension(name) == Some(dotos_extension()),
        None => false,
    }
}

impl View for ComponentCommand {
    type V = Seq<Seq<char>>;

    closed spec fn view(&self) -> Seq<Seq<char>> {
        self.arguments@.map_values(|argument: String| argument@)
    }
}

impl View for InlineDotos {
    type V = Seq<char>;

    closed spec fn view(&self) -> Seq<char> {
        self.text@
    }
}

impl View for DotosFile {
    type V = Seq<char>;

    closed spec fn view(&self) -> Seq<char> {
        self.path@
    }
}

impl View for SignalFile {
    type V = Seq<char>;

    closed spec fn view(&self) -> Seq<char> {
        self.path@
    }
}

impl ComponentCommand {
    /// The operands of this command.
    pub open spec fn operands(&self) -> Seq<Seq<char>> {
        operands_of(self@)
    }

    pub fn from_arguments(arguments: Vec<String>) -> (command: Self)
        ensures
            command@ == arguments@.map_values(|argument: String| argument@),
    {
        Self { arguments }
    }

    /// Whether the caller asked for readable DOTOS output with `--pretty`.
    pub fn pretty_requested(&self) -> (requested: bool)
        ensures
            requested == self@.contains(pretty_flag()),
    {
        let mut index: usize = 0;
        while index < self.arguments.len()
            invariant
                index <= self.arguments@.len(),
                forall|j: int| 0 <= j < index ==> self@[j] != pretty_flag(),
            decreases self.arguments@.len() - index,
        {
            if is_pretty_flag(&self.arguments[index]) {
                assert(self@[index as int] == pretty_flag());
                return true;
            }
            index = index + 1;
        }
        false
    }

    /// The number of operands once flags are set aside.
    pub fn argument_count(&self) -> (count: usize)
        ensures
            count == self.operands().len(),
    {
        let operands = self.collect_operands();
        operands.len()
    }

    /// Classifies the one operand for a text client, asking the file system
    /// whether it names an existing path.
    pub fn dotos_argument(&self) -> (result: Result<ComponentArgument, ArgumentError>)
        ensures
            self.operands().len() != 1 <==> result matches Err(
                ArgumentError::ArgumentCount { .. },
            ),
            result matches Err(ArgumentError::ArgumentCount { count }) ==> count
                == self.operands().len(),
            !(result matches Err(ArgumentError::ExpectedSignalFile)),
            result matches Ok(ComponentArgument::InlineDotos(text)) ==> text@
                == self.operands()[0],
            result matches Ok(ComponentArgument::DotosFile(file)) ==> file@
                == self.operands()[0],
            !(result matches Ok(ComponentArgument::SignalFile(_))),
    {
        let operands = self.collect_operands();
        if operands.len() != 1 {
            return self.dotos_argument_given(false);
        }
        let exists = path_exists(operands[0].as_str());
        self.dotos_argument_given(exists)
    }

    /// Classifies the one operand for a text client, given whether it names an
    /// existing path: an existing path is a DOTOS file, anything else inline text.
    pub fn dotos_argument_given(&self, operand_exists: bool) -> (result: Result<
        ComponentArgument,
        ArgumentError,
    >)
        ensures
            self.operands().len() != 1 ==> (result matches Err(
                ArgumentError::ArgumentCount { count },
            ) && count == self.operands().len()),
            self.operands().len() == 1 && operand_exists ==> (result matches Ok(
                ComponentArgument::DotosFile(file),
            ) && file@ == self.operands()[0]),
            self.operands().len() == 1 && !operand_exists ==> (result matches Ok(
                ComponentArgument::InlineDotos(text),
            ) && text@ == self.operands()[0]),
    {
        let operand = self.single_operand()?;
        if operand_exists {
            Ok(ComponentArgument::DotosFile(DotosFile { path: operand }))
        } else {
            Ok(ComponentArgument::InlineDotos(InlineDotos { text: operand }))
        }
    }

    /// Classifies the one operand for a daemon, asking the file system whether
    /// it names an existing path.
    pub fn signal_file_argument(&self) -> (result: Result<ComponentArgument, ArgumentError>)
        ensures
            self.operands().len() != 1 <==> result matches Err(
                ArgumentError::ArgumentCount { .. },
            ),
            result matches Err(ArgumentError::ArgumentCount { count }) ==> count
                == self.operands().len(),
            result is Ok ==> (result matches Ok(ComponentArgument::SignalFile(file)) && file@
                == self.operands()[0]),
            self.operands().len() == 1 && is_dotos_file_name(
                crate::paths::path_file_name(self.operands()[0]),
            ) ==> result matches Err(ArgumentError::ExpectedSignalFile),
    {
        let operands = self.collect_operands();
        if operands.len() != 1 {
            return self.signal_file_argument_given(false);
        }
        let exists = path_exists(operands[0].as_str());
        self.signal_file_argument_given(exists)
    }

    /// Classifies the one operand for a daemon, given whether it names an
    /// existing path: only an existing path without the DOTOS extension is a
    /// signal file; inline text and DOTOS files are refused.
    pub fn signal_file_argument_given(&self, operand_exists: bool) -> (result: Result<
        ComponentArgument,
        ArgumentError,
    >)
        ensures
            self.operands().len() != 1 ==> (result matches Err(
                ArgumentError::ArgumentCount { count },
            ) && count == self.operands().len()),
            self.operands().len() == 1 ==> {
                let operand = self.operands()[0];
                let is_signal_file = operand_exists && !is_dotos_file_name(
                    crate::paths::path_file_name(operand),
                );
                &&& is_signal_file ==> (result matches Ok(ComponentArgument::SignalFile(file))
                    && file@ == operand)
                &&& !is_signal_file ==> result matches Err(ArgumentError::ExpectedSignalFile)
            },
    {
        let operand = self.single_operand()?;
        if !operand_exists {
            return Err(ArgumentError::ExpectedSignalFile);
        }
        if is_dotos_path(&operand) {
            return Err(ArgumentError::ExpectedSignalFile);
        }
        Ok(ComponentArgument::SignalFile(SignalFile { path: operand }))
    }

    /// The operands, in order.
    fn collect_operands(&self) -> (operands: Vec<String>)
        ensures
            operands@.map_values(|operand: String| operand@) == self.operands(),
    {
        let mut operands: Vec<String> = Vec::new();
        let mut index: usize = 0;
        while index < self.arguments.len()
            invariant
                index <= self.arguments@.len(),
                operands@.map_values(|operand: String| operand@) == operands_of(
                    self@.take(index as int),
                ),
            decreases self.arguments@.len() - index,
        {
            let argument = &self.arguments[index];
            let ghost taken = self@.take(index as int + 1);
            assert(taken.drop_last() == self@.take(index as int));
            assert(taken.last() == argument@);
            if !is_pretty_flag(argument) {
                operands.push(argument.clone());
                assert(operands@.map_values(|operand: String| operand@) =~= operands_of(
                    self@.take(index as int),
                ).push(argument@));
            }
            index = index + 1;
        }
        assert(self@.take(self.arguments@.len() as int) == self@);
        operands
    }

    /// The one operand, or the count error when there is not exactly one.
    fn single_operand(&self) -> (result: Result<String, ArgumentError>)
        ensures
            self.operands().len() == 1 ==> (result matches Ok(operand) && operand@
                == self.operands()[0]),
            self.operands().len() != 1 ==> (result matches Err(
                ArgumentError::ArgumentCount { count },
            ) && count == self.operands().len()),
    {
        let operands = self.collect_operands();
        if operands.len() == 1 {
            let operand = operands[0].clone();
            assert(operands@.map_values(|operand: String| operand@)[0] == operands@[0]@);
            Ok(operand)
        } else {
            Err(ArgumentError::ArgumentCount { count: operands.len() })
        }
    }
}

impl ComponentArgument {
    pub fn into_inline_dotos(self) -> (argument: Option<InlineDotos>)
        ensures
            match self {
                ComponentArgument::InlineDotos(text) => argument == Some(text),
                _ => argument is None,
            },
    {
        match self {
            Self::InlineDotos(argument) => Some(argument),
            Self::DotosFile(_) | Self::SignalFile(_) => None,
        }
    }

    pub fn into_dotos_file(self) -> (argument: Option<DotosFile>)
        ensures
            match self {
                ComponentArgument::DotosFile(file) => argument == Some(file),
                _ => argument is None,
            },
    {
        match self {
            Self::DotosFile(argument) => Some(argument),
            Self::InlineDotos(_) | Self::SignalFile(_) => None,
        }
    }

    pub fn into_signal_file(self) -> (argument: Option<SignalFile>)
        ensures
            match self {
                ComponentArgument::SignalFile(file) => argument == Some(file),
                _ => argument is None,
            },
    {
        match self {
            Self::SignalFile(argument) => Some(argument),
            Self::InlineDotos(_) | Self::DotosFile(_) => None,
        }
    }
}

impl InlineDotos {
    pub fn as_str(&self) -> (text: &str)
        ensures
            text@ == self@,
    {
        self.text.as_str()
    }

    pub fn into_string(self) -> (text: String)
        ensures
            text@ == self@,
    {
        self.text
    }
}

impl DotosFile {
    pub fn as_path(&self) -> (path: &std::path::Path)
        ensures
            std_path_text(path) == self@,
    {
        std_path_of(&self.path)
    }

    pub fn into_path(self) -> (path: std::path::PathBuf)
        ensures
            std_path_buf_text(path) == self@,
    {
        std_path_buf_of(self.path)
    }
}

impl SignalFile {
    pub fn as_path(&self) -> (path: &std::path::Path)
        ensures
            std_path_text(path) == self@,
    {
        std_path_of(&self.path)
    }

    pub fn into_path(self) -> (path: std::path::PathBuf)
        ensures
            std_path_buf_text(path) == self@,
    {
        std_path_buf_of(self.path)
    }
}

fn is_pretty_flag(argument: &String) -> (is_flag: bool)
    ensures
        is_flag == (argument@ == pretty_flag()),
{
    let flag = String::from_str("--pretty");
    proof {
        reveal_strlit("--pretty");
    }
    assert(flag@ =~= pretty_flag());
    *argument == flag
}

/// The index of the last '.' in `name`, if any.
fn find_last_dot(name: &str) -> (index: Option<usize>)
    ensures
        match index {
            Some(i) => i == last_dot_index(name@) && i < name@.len(),
            None => last_dot_index(name@) == -1,
        },
{
    let length = name.unicode_len();
    let mut remaining = length;
    assert(name@.take(length as int) =~= name@);
    while remaining > 0
        invariant
            remaining <= length,
            length == name@.len(),
            last_dot_index(name@) == last_dot_index(name@.take(remaining as int)),
        decreases remaining,
    {
        let ghost prefix = name@.take(remaining as int);
        assert(prefix.last() == name@[remaining - 1]);
        assert(prefix.drop_last() == name@.take(remaining - 1));
        if name.get_char(remaining - 1) == '.' {
            return Some(remaining - 1);
        }
        remaining = remaining - 1;
    }
    assert(name@.take(0) == Seq::<char>::empty());
    None
}

/// Whether a file name's extension is exactly the DOTOS extension.
fn has_dotos_extension(name: &str) -> (is_dotos: bool)
    ensures
        is_dotos == (name_extension(name@) == Some(dotos_extension())),
{
    let length = name.unicode_len();
    match find_last_dot(name) {
        None => false,
        Some(dot) => {
            if dot == 0 {
                return false;
            }
            let extension = name.substring_char(dot + 1, length);
            let expected = String::from_str("dotos");
            proof {
                reveal_strlit("dotos");
            }
            assert(expected@ =~= dotos_extension());
            let extension = String::from_str(extension);
            assert(extension@ =~= name@.skip(dot + 1));
            extension == expected
        },
    }
}

/// Whether a path names a DOTOS text file by its extension.
fn is_dotos_path(path: &String) -> (is_dotos: bool)
    ensures
        is_dotos == is_dotos_file_name(crate::paths::path_file_name(path@)),
{
    match file_name_of(path.as_str()) {
        None => false,
        Some(name) => has_dotos_extension(name.as_str()),
    }
}

/// Calls `std::path::Path::exists` on the operand. The answer depends on the
/// file system at the moment of the call, so nothing is claimed of it.
#[verifier::external_body]
fn path_exists(path: &str) -> bool {
    std::path::Path::new(path).exists()
}

/// The operands of a command are its arguments with every `--pretty` taken
/// out, wherever it stands, and nothing else taken out, in their order.
pub proof fn lemma_operands_are_the_arguments_without_the_flag(arguments: Seq<Seq<char>>)
    ensures
        operands_of(arguments) == arguments.filter(|argument: Seq<char>| argument != pretty_flag()),
        !operands_of(arguments).contains(pretty_flag()),
    decreases arguments.len(),
{
    let keep = |argument: Seq<char>| argument != pretty_flag();
    reveal_with_fuel(Seq::filter, 1);
    if arguments.len() > 0 {
        lemma_operands_are_the_arguments_without_the_flag(arguments.drop_last());
        assert(arguments.drop_last().filter(keep) == operands_of(arguments.drop_last()));
    }
    let filtered = arguments.filter(keep);
    assert(operands_of(arguments) =~= filtered);
    assert forall|i: int| 0 <= i < filtered.len() implies filtered[i] != pretty_flag() by {
        arguments.filter_lemma(keep);
    }
}

} // verus!
