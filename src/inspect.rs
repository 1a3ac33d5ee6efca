use vstd::prelude::*;

verus! {

/// The byte that every inspected file should end with.
pub const LINE_FEED: u8 = 10;

/// The terminator that is appended to a file that lacks one.
#[derive(Clone, Copy, Debug, PartialEq, Eq, Structural)]
pub enum LineEnding {
    /// A single line feed.
    Lf,
    /// A carriage return followed by a line feed.
    CrLf,
}

impl LineEnding {
    pub open spec fn spec_bytes(self) -> Seq<u8> {
        match self {
            LineEnding::Lf => seq![LINE_FEED],
            LineEnding::CrLf => seq![13u8, LINE_FEED],
        }
    }

    /// The bytes of the terminator.
    pub fn bytes(&self) -> (r: Vec<u8>)
        ensures
            r@ == self.spec_bytes(),
    {
        match self {
            LineEnding::Lf => vec![LINE_FEED],
            LineEnding::CrLf => vec![13u8, LINE_FEED],
        }
    }
}

/// What the inspection of one file decides.
#[derive(Clone, Copy, Debug, PartialEq, Eq, Structural)]
pub enum Verdict {
    /// The file is empty or already ends with a line feed.
    UpToDate,
    /// The file lacks a terminator; in a dry run it is left as it is.
    WouldUpdate,
    /// The file lacks a terminator, which is to be appended.
    Append,
}

impl Verdict {
    /// Whether the file was, or would be, modified.
    pub fn modifies(&self) -> (r: bool)
        ensures
            r == !(*self is UpToDate),
    {
        !matches!(self, Verdict::UpToDate)
    }
}

/// The last byte of a file's content, or `None` for an empty file.
pub open spec fn spec_tail(content: Seq<u8>) -> Option<u8> {
    if content.len() == 0 {
        None
    } else {
        Some(content.last())
    }
}

/// The decision for a file whose last byte is `tail`.
pub open spec fn spec_verdict(tail: Option<u8>, dry_run: bool) -> Verdict {
    match tail {
        None => Verdict::UpToDate,
        Some(b) => if b == LINE_FEED {
            Verdict::UpToDate
        } else if dry_run {
            Verdict::WouldUpdate
        } else {
            Verdict::Append
        },
    }
}

/// A file's content once the verdict has been carried out.
pub open spec fn spec_after(content: Seq<u8>, verdict: Verdict, ending: LineEnding) -> Seq<u8> {
    if verdict is Append {
        content + ending.spec_bytes()
    } else {
        content
    }
}

/// Decides what to do with a file from its last byte alone (`None` when the
/// file is empty): an empty file or one that ends with a line feed is up to
/// date; any other is to be completed, or only reported in a dry run.
pub fn inspect(tail: Option<u8>, dry_run: bool) -> (r: Verdict)
    ensures
        r == spec_verdict(tail, dry_run),
{
    match tail {
        None => Verdict::UpToDate,
        Some(b) => {
            if b == LINE_FEED {
                Verdict::UpToDate
            } else if dry_run {
                Verdict::WouldUpdate
            } else {
                Verdict::Append
            }
        },
    }
}

/// The last byte of `content`, if any.
pub fn tail_of(content: &[u8]) -> (r: Option<u8>)
    ensures
        r == spec_tail(content@),
{
    if content.len() == 0 {
        None
    } else {
        Some(content[content.len() - 1])
    }
}

/// Runs the inspection on a file's content held in memory, appending the
/// terminator where the verdict asks for it.
pub fn append_terminator(content: &mut Vec<u8>, dry_run: bool, ending: LineEnding) -> (r: Verdict)
    ensures
        r == spec_verdict(spec_tail(old(content)@), dry_run),
        final(content)@ == spec_after(old(content)@, r, ending),
{
    let verdict = inspect(tail_of(content.as_slice()), dry_run);
    if matches!(verdict, Verdict::Append) {
        let mut extra = ending.bytes();
        content.append(&mut extra);
    }
    verdict
}

/// A file that already ends with a line feed is reported up to date, in a dry
/// run or not, and its bytes are left as they are.
pub proof fn lemma_terminated_file_untouched(content: Seq<u8>, dry_run: bool, ending: LineEnding)
    requires
        content.len() > 0,
        content.last() == LINE_FEED,
    ensures
        spec_verdict(spec_tail(content), dry_run) == Verdict::UpToDate,
        spec_after(content, spec_verdict(spec_tail(content), dry_run), ending) == content,
{
}

/// A non-empty file whose last byte is not a line feed is updated by a run
/// that is not a dry run: exactly one terminator is appended, and inspecting
/// the result again finds it up to date.
pub proof fn lemma_unterminated_file_completed(
    content: Seq<u8>,
    ending: LineEnding,
    dry_run_again: bool,
)
    requires
        content.len() > 0,
        content.last() != LINE_FEED,
    ensures
        spec_verdict(spec_tail(content), false) == Verdict::Append,
        spec_after(content, Verdict::Append, ending) == content + ending.spec_bytes(),
        spec_verdict(spec_tail(content + ending.spec_bytes()), dry_run_again) == Verdict::UpToDate,
{
    let done = content + ending.spec_bytes();
    assert(done.last() == LINE_FEED);
}

/// An empty file is up to date in either mode and is never written to.
pub proof fn lemma_empty_file_untouched(dry_run: bool, ending: LineEnding)
    ensures
        spec_verdict(spec_tail(Seq::<u8>::empty()), dry_run) == Verdict::UpToDate,
        spec_after(
            Seq::<u8>::empty(),
            spec_verdict(spec_tail(Seq::<u8>::empty()), dry_run),
            ending,
        ) == Seq::<u8>::empty(),
{
}

/// A dry run never changes a file, and it reports as needing an update
/// exactly the files that a run which is not dry then updates.
pub proof fn lemma_dry_run_previews(content: Seq<u8>, ending: LineEnding)
    ensures
        spec_after(content, spec_verdict(spec_tail(content), true), ending) == content,
        (spec_verdict(spec_tail(content), true) is WouldUpdate) <==> (spec_verdict(
            spec_tail(content),
            false,
        ) is Append),
        spec_verdict(spec_tail(content), true) != Verdict::Append,
{
}

} // verus!
