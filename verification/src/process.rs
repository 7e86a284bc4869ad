//! Child processes as plain values: what to run, and what came of it.

use vstd::prelude::*;
use vstd::utf8::encode_utf8;

use crate::secret::Secret;
use crate::text::{texts, trim, trimmed, utf8_lossy, from_utf8_lossy, cat2, cat3};

verus! {

/// What a child process reads on its standard input.
pub enum Input {
    /// Nothing: the input is closed.
    Nothing,
    /// These bytes.
    Bytes(Vec<u8>),
    /// The text of a secret.
    Sealed(Secret),
}

/// A variable in the environment of a child process.
pub struct Variable {
    pub name: String,
    pub value: Secret,
}

/// A child process to be run.
pub struct Invocation {
    pub program: String,
    pub args: Vec<String>,
    /// A path given as the last argument.
    pub path: Option<Vec<u8>>,
    /// Variables that the child does not inherit.
    pub removed: Vec<String>,
    /// Variables that the child gets on top of those it inherits.
    pub env: Vec<Variable>,
    pub input: Input,
}

/// What other users of the machine can see of a running process.
pub struct Visible {
    pub program: Seq<char>,
    pub args: Seq<Seq<char>>,
    pub path: Option<Seq<u8>>,
}

/// The contents of an [`Invocation`].
pub struct InvocationView {
    pub visible: Visible,
    pub removed: Seq<Seq<char>>,
    pub env: Seq<(Seq<char>, Seq<char>)>,
    pub input: Option<Seq<u8>>,
}

impl View for Input {
    type V = Option<Seq<u8>>;

    open spec fn view(&self) -> Option<Seq<u8>> {
        match self {
            Input::Nothing => None,
            Input::Bytes(b) => Some(b@),
            Input::Sealed(s) => Some(encode_utf8(s@)),
        }
    }
}

/// The names and values of a list of variables.
pub open spec fn bindings(env: Seq<Variable>) -> Seq<(Seq<char>, Seq<char>)> {
    env.map_values(|v: Variable| (v.name@, v.value@))
}

/// The bytes of an optional byte string.
pub open spec fn bytes_of(b: Option<Vec<u8>>) -> Option<Seq<u8>> {
    match b {
        Some(b) => Some(b@),
        None => None,
    }
}

impl View for Invocation {
    type V = InvocationView;

    open spec fn view(&self) -> InvocationView {
        InvocationView {
            visible: Visible {
                program: self.program@,
                args: texts(self.args@),
                path: bytes_of(self.path),
            },
            removed: texts(self.removed@),
            env: bindings(self.env@),
            input: self.input@,
        }
    }
}

/// A list of one word.
pub fn words1(a: &str) -> (r: Vec<String>)
    ensures
        texts(r@) == seq![a@],
{
    let r = vec![a.to_owned()];
    assert(texts(r@) =~= seq![a@]);
    r
}

/// A list of two words.
pub fn words2(a: &str, b: &str) -> (r: Vec<String>)
    ensures
        texts(r@) == seq![a@, b@],
{
    let r = vec![a.to_owned(), b.to_owned()];
    assert(texts(r@) =~= seq![a@, b@]);
    r
}

/// A list of three words.
pub fn words3(a: &str, b: &str, c: &str) -> (r: Vec<String>)
    ensures
        texts(r@) == seq![a@, b@, c@],
{
    let r = vec![a.to_owned(), b.to_owned(), c.to_owned()];
    assert(texts(r@) =~= seq![a@, b@, c@]);
    r
}

/// A list of four words.
pub fn words4(a: &str, b: &str, c: &str, d: &str) -> (r: Vec<String>)
    ensures
        texts(r@) == seq![a@, b@, c@, d@],
{
    let r = vec![a.to_owned(), b.to_owned(), c.to_owned(), d.to_owned()];
    assert(texts(r@) =~= seq![a@, b@, c@, d@]);
    r
}

/// What came of a child process that ran to its end.
pub struct Output {
    /// Whether it exited with status zero.
    pub success: bool,
    pub stdout: Vec<u8>,
    pub stderr: Vec<u8>,
}

/// The contents of an [`Output`].
pub struct OutputView {
    pub success: bool,
    pub stdout: Seq<u8>,
    pub stderr: Seq<u8>,
}

impl View for Output {
    type V = OutputView;

    open spec fn view(&self) -> OutputView {
        OutputView { success: self.success, stdout: self.stdout@, stderr: self.stderr@ }
    }
}

/// What came of an attempt to run a child process: its output, or why there is
/// none.
pub type Ran = Result<Output, String>;

/// The contents of a [`Ran`].
pub open spec fn ran(r: Ran) -> Result<OutputView, Seq<char>> {
    match r {
        Ok(out) => Ok(out@),
        Err(cause) => Err(cause@),
    }
}

/// The error text of a result.
pub open spec fn failure<T>(r: Result<T, String>) -> Option<Seq<char>> {
    match r {
        Ok(_) => None,
        Err(e) => Some(e@),
    }
}

/// A result with its error's text.
pub open spec fn said<T>(r: Result<T, String>) -> Result<T, Seq<char>> {
    match r {
        Ok(t) => Ok(t),
        Err(e) => Err(e@),
    }
}

/// `cause` with a note on what was going on in front of it.
pub open spec fn because(context: Seq<char>, cause: Seq<char>) -> Seq<char> {
    context + ": "@ + cause
}

/// `cause` with a note on what was going on in front of it.
pub fn with_context(context: &str, cause: &str) -> (r: String)
    ensures
        r@ == because(context@, cause@),
{
    cat3(context, ": ", cause)
}

/// What a process said on standard error, for a message.
pub open spec fn complaint(bytes: Seq<u8>) -> Seq<char> {
    let said = trimmed(utf8_lossy(bytes));
    if said.len() == 0 {
        "(no stderr)"@
    } else {
        said
    }
}

/// What a process said on standard error, for a message.
pub fn stderr(bytes: &[u8]) -> (r: String)
    ensures
        r@ == complaint(bytes@),
{
    let said = trim(from_utf8_lossy(bytes).as_str());
    if said.as_str().is_empty() {
        "(no stderr)".to_owned()
    } else {
        said
    }
}

/// Why running a process went wrong, if it did: `context` is put in front of
/// the reason it did not run, `blame` in front of its complaint.
pub open spec fn run_failure(
    r: Result<OutputView, Seq<char>>,
    context: Seq<char>,
    blame: Seq<char>,
) -> Option<Seq<char>> {
    match r {
        Err(cause) => Some(because(context, cause)),
        Ok(out) => if out.success {
            None
        } else {
            Some(blame + complaint(out.stderr))
        },
    }
}

/// What a process wrote to standard output, if it ran and exited with status
/// zero.
pub fn expect_success(r: Ran, context: &str, blame: &str) -> (res: Result<Vec<u8>, String>)
    ensures
        failure(res) == run_failure(ran(r), context@, blame@),
        res matches Ok(stdout) ==> ran(r)->Ok_0.stdout == stdout@,
{
    match r {
        Err(cause) => Err(with_context(context, cause.as_str())),
        Ok(out) => if out.success {
            Ok(out.stdout)
        } else {
            Err(cat2(blame, stderr(out.stderr.as_slice()).as_str()))
        },
    }
}

// --- laws -------------------------------------------------------------------

/// Running a process goes wrong exactly where it did not run or did not exit with
/// status zero. The message names the one reason or the other, and what a process
/// wrote to standard output has no part in it.
pub proof fn a_failure_is_told_from_a_success(
    out: OutputView,
    stdout: Seq<u8>,
    cause: Seq<char>,
    context: Seq<char>,
    blame: Seq<char>,
)
    ensures
        run_failure(Ok(out), context, blame) is None <==> out.success,
        run_failure(Err(cause), context, blame) == Some(context + ": "@ + cause),
        run_failure(Ok(out), context, blame) == run_failure(
            Ok(OutputView { stdout, ..out }),
            context,
            blame,
        ),
        !out.success ==> run_failure(Ok(out), context, blame) == Some(
            blame + (if trimmed(utf8_lossy(out.stderr)) == Seq::<char>::empty() {
                "(no stderr)"@
            } else {
                trimmed(utf8_lossy(out.stderr))
            }),
        ),
{
    if trimmed(utf8_lossy(out.stderr)).len() == 0 {
        assert(trimmed(utf8_lossy(out.stderr)) =~= Seq::<char>::empty());
    }
}

/// An invocation is what stands in it: its program and arguments are seen, its
/// variables have the values that were put there, and its input is what the
/// process reads.
pub proof fn an_invocation_is_what_stands_in_it(call: Invocation, i: int)
    ensures
        call@.visible.program == call.program@,
        call@.visible.args.len() == call.args@.len(),
        0 <= i < call.args@.len() ==> call@.visible.args[i] == call.args@[i]@,
        call.path matches Some(p) ==> call@.visible.path == Some(p@),
        call.path is None ==> call@.visible.path is None,
        call@.removed.len() == call.removed@.len(),
        0 <= i < call.removed@.len() ==> call@.removed[i] == call.removed@[i]@,
        call@.env.len() == call.env@.len(),
        0 <= i < call.env@.len() ==> call@.env[i] == (call.env@[i].name@, call.env@[i].value@),
        call.input is Nothing ==> call@.input is None,
        call.input matches Input::Bytes(b) ==> call@.input == Some(b@),
        call.input matches Input::Sealed(s) ==> call@.input == Some(encode_utf8(s@)),
{
}

/// What came of running a process is taken as it came.
pub proof fn an_output_is_taken_as_it_came(out: Output, cause: String)
    ensures
        ran(Ok(out)) == Ok::<OutputView, Seq<char>>(
            OutputView { success: out.success, stdout: out.stdout@, stderr: out.stderr@ },
        ),
        ran(Err(cause)) == Err::<OutputView, Seq<char>>(cause@),
{
}

/// A result is told with its own message: what went well has none, and what went
/// wrong has the one that stands in it.
pub proof fn errors_are_told_in_their_own_words<T>(t: T, e: String)
    ensures
        failure(Ok::<T, String>(t)) is None,
        failure(Err::<T, String>(e)) == Some(e@),
        said(Ok::<T, String>(t)) == Ok::<T, Seq<char>>(t),
        said(Err::<T, String>(e)) == Err::<T, Seq<char>>(e@),
{
}

/// What a process wrote is handed on as it is, where it exited with status zero.
pub proof fn what_a_process_wrote_is_handed_on(
    out: Output,
    cause: String,
    context: &str,
    blame: &str,
    r: Result<Vec<u8>, String>,
    lost: Result<Vec<u8>, String>,
)
    requires
        call_ensures(expect_success, (Ok::<Output, String>(out), context, blame), r),
        call_ensures(expect_success, (Err::<Output, String>(cause), context, blame), lost),
    ensures
        out.success ==> (r matches Ok(b) && b@ == out.stdout@),
        !out.success ==> (r matches Err(e) && e@ == blame@ + complaint(out.stderr@)),
        lost matches Err(e) && e@ == context@ + ": "@ + cause@,
{
}

} // verus!
