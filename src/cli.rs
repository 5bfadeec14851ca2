//! Command-line arguments: the file to read and how to report it.
use vstd::prelude::*;

verus! {

/// How the report is written.
#[derive(Clone, Copy, Debug, PartialEq, Eq, Structural)]
pub struct DisplayOptions {
    /// Whether each value is followed by a short description of what it means.
    pub descriptive: bool,
}

/// An argument that was ignored, and why.
#[derive(Debug, PartialEq, Eq)]
pub enum ArgNote {
    /// The description option was given again; the flag as written after its dashes.
    RepeatedDescriptive(String),
    /// A one-letter flag that means nothing here.
    UnknownShortFlag(char),
    /// A long flag that means nothing here, as written after its dashes.
    UnknownLongFlag(String),
    /// A second path; only the first one is read.
    ExtraPath(String),
}

/// An `ArgNote` with its text as characters.
pub enum NoteView {
    RepeatedDescriptive(Seq<char>),
    UnknownShortFlag(char),
    UnknownLongFlag(Seq<char>),
    ExtraPath(Seq<char>),
}

impl View for ArgNote {
    type V = NoteView;

    open spec fn view(&self) -> NoteView {
        match self {
            ArgNote::RepeatedDescriptive(s) => NoteView::RepeatedDescriptive(s@),
            ArgNote::UnknownShortFlag(c) => NoteView::UnknownShortFlag(*c),
            ArgNote::UnknownLongFlag(s) => NoteView::UnknownLongFlag(s@),
            ArgNote::ExtraPath(s) => NoteView::ExtraPath(s@),
        }
    }
}

/// What the command line asks for.
#[derive(Debug)]
pub struct Cli {
    /// The first argument that is not a flag, as written.
    pub file_path: Option<String>,
    pub display_options: DisplayOptions,
    /// The arguments that were ignored, in order.
    pub notes: Vec<ArgNote>,
}

/// The meaning of the arguments read so far.
pub struct ArgsModel {
    pub path: Option<Seq<char>>,
    pub descriptive: bool,
    pub notes: Seq<NoteView>,
}

/// The number of dashes that `s` starts with.
pub open spec fn leading_dashes(s: Seq<char>) -> nat
    decreases s.len(),
{
    if s.len() > 0 && s[0] == '-' {
        1 + leading_dashes(s.drop_first())
    } else {
        0
    }
}

/// Turns the description option on, noting it when it was on already.
pub open spec fn set_descriptive(m: ArgsModel, written: Seq<char>) -> ArgsModel {
    ArgsModel {
        path: m.path,
        descriptive: true,
        notes: if m.descriptive {
            m.notes.push(NoteView::RepeatedDescriptive(written))
        } else {
            m.notes
        },
    }
}

/// Notes an argument as ignored.
pub open spec fn ignore(m: ArgsModel, n: NoteView) -> ArgsModel {
    ArgsModel { path: m.path, descriptive: m.descriptive, notes: m.notes.push(n) }
}

/// One-letter flags, one after another: `d` asks for descriptions.
pub open spec fn short_flags(m: ArgsModel, cs: Seq<char>) -> ArgsModel
    decreases cs.len(),
{
    if cs.len() == 0 {
        m
    } else {
        let before = short_flags(m, cs.drop_last());
        if cs.last() == 'd' {
            set_descriptive(before, "d"@)
        } else {
            ignore(before, NoteView::UnknownShortFlag(cs.last()))
        }
    }
}

/// One argument: after one dash, one-letter flags; after two or more, a long flag
/// (`description` or `descriptive`); without a dash, the path, of which the first one counts.
pub open spec fn apply_arg(m: ArgsModel, a: Seq<char>) -> ArgsModel {
    let n = leading_dashes(a);
    let rest = a.skip(n as int);
    if n == 0 {
        if m.path is Some {
            ignore(m, NoteView::ExtraPath(a))
        } else {
            ArgsModel { path: Some(a), descriptive: m.descriptive, notes: m.notes }
        }
    } else if n == 1 {
        short_flags(m, rest)
    } else if rest == "description"@ || rest == "descriptive"@ {
        set_descriptive(m, rest)
    } else {
        ignore(m, NoteView::UnknownLongFlag(rest))
    }
}

/// The meaning of a list of arguments, read in order.
pub open spec fn args_model(args: Seq<Seq<char>>) -> ArgsModel
    decreases args.len(),
{
    if args.len() == 0 {
        ArgsModel { path: None, descriptive: false, notes: Seq::empty() }
    } else {
        apply_arg(args_model(args.drop_last()), args.last())
    }
}

/// The number of dashes that `s` starts with.
pub fn count_dashes(s: &str) -> (r: usize)
    ensures
        r == leading_dashes(s@),
{
    let len = s.unicode_len();
    let mut i: usize = 0;
    assert(s@.skip(0) =~= s@);
    while i < len && s.get_char(i) == '-'
        invariant
            i <= len == s@.len(),
            leading_dashes(s@) == i + leading_dashes(s@.skip(i as int)),
        decreases len - i,
    {
        assert(s@.skip(i as int).drop_first() =~= s@.skip(i + 1));
        i = i + 1;
    }
    proof {
        lemma_no_more_dashes(s@, i as int);
    }
    i
}

proof fn lemma_no_more_dashes(s: Seq<char>, i: int)
    requires
        0 <= i <= s.len(),
        i == s.len() || s[i] != '-',
    ensures
        leading_dashes(s.skip(i)) == 0,
{
    if i < s.len() {
        assert(s.skip(i)[0] == s[i]);
    }
}

/// Whether two strings hold the same characters.
fn same_text(a: &str, b: &str) -> (r: bool)
    ensures
        r == (a@ == b@),
{
    let n = a.unicode_len();
    if n != b.unicode_len() {
        return false;
    }
    let mut i: usize = 0;
    while i < n
        invariant
            i <= n == a@.len() == b@.len(),
            a@.take(i as int) == b@.take(i as int),
        decreases n - i,
    {
        if a.get_char(i) != b.get_char(i) {
            return false;
        }
        assert(a@.take(i + 1) =~= a@.take(i as int).push(a@[i as int]));
        assert(b@.take(i + 1) =~= b@.take(i as int).push(b@[i as int]));
        i = i + 1;
    }
    assert(a@ =~= a@.take(n as int));
    assert(b@ =~= b@.take(n as int));
    true
}

/// The view of each note.
pub open spec fn notes_view(ns: Seq<ArgNote>) -> Seq<NoteView> {
    ns.map_values(|n: ArgNote| n@)
}

impl Cli {
    /// Reads the arguments that follow the program's name, in order.
    ///
    /// Nothing here touches the file system: whether the path exists and names a PNG file is
    /// for the caller to check.
    pub fn from_args(args: &Vec<String>) -> (r: Cli)
        ensures
            ({
                let m = args_model(args@.map_values(|a: String| a@));
                &&& r.file_path matches Some(p) ==> m.path == Some(p@)
                &&& r.file_path is None ==> m.path is None
                &&& r.display_options.descriptive == m.descriptive
                &&& notes_view(r.notes@) == m.notes
            }),
    {
        let ghost all = args@.map_values(|a: String| a@);
        let mut file_path: Option<String> = None;
        let mut descriptive = false;
        let mut notes: Vec<ArgNote> = Vec::new();
        let mut i: usize = 0;
        assert(all.take(0) =~= Seq::<Seq<char>>::empty());
        assert(notes_view(notes@) =~= Seq::<NoteView>::empty());
        while i < args.len()
            invariant
                i <= args@.len() == all.len(),
                all == args@.map_values(|a: String| a@),
                ({
                    let m = args_model(all.take(i as int));
                    &&& file_path matches Some(p) ==> m.path == Some(p@)
                    &&& file_path is None ==> m.path is None
                    &&& descriptive == m.descriptive
                    &&& notes_view(notes@) == m.notes
                }),
            decreases args@.len() - i,
        {
            let arg = args[i].as_str();
            assert(all.take(i + 1).drop_last() =~= all.take(i as int));
            assert(all.take(i + 1).last() == arg@);
            let ghost m0 = args_model(all.take(i as int));
            let dashes = count_dashes(arg);
            let len = arg.unicode_len();
            if dashes == 0 {
                if file_path.is_some() {
                    let ghost before = notes@;
                    notes.push(ArgNote::ExtraPath(arg.to_owned()));
                    assert(notes_view(notes@) =~= notes_view(before).push(NoteView::ExtraPath(arg@)));
                } else {
                    file_path = Some(arg.to_owned());
                }
            } else {
                proof {
                    lemma_dashes_bounded(arg@);
                }
                let rest = arg.substring_char(dashes, len);
                if dashes == 1 {
                    let rest_len = rest.unicode_len();
                    let mut j: usize = 0;
                    assert(rest@.take(0) =~= Seq::<char>::empty());
                    while j < rest_len
                        invariant
                            j <= rest_len == rest@.len(),
                            ({
                                let m = short_flags(m0, rest@.take(j as int));
                                &&& file_path matches Some(p) ==> m.path == Some(p@)
                                &&& file_path is None ==> m.path is None
                                &&& descriptive == m.descriptive
                                &&& notes_view(notes@) == m.notes
                            }),
                        decreases rest_len - j,
                    {
                        let c = rest.get_char(j);
                        assert(rest@.take(j + 1).drop_last() =~= rest@.take(j as int));
                        let ghost before = notes@;
                        if c == 'd' {
                            if descriptive {
                                notes.push(ArgNote::RepeatedDescriptive("d".to_owned()));
                                assert(notes_view(notes@) =~= notes_view(before).push(
                                    NoteView::RepeatedDescriptive("d"@),
                                ));
                            }
                            descriptive = true;
                        } else {
                            notes.push(ArgNote::UnknownShortFlag(c));
                            assert(notes_view(notes@) =~= notes_view(before).push(
                                NoteView::UnknownShortFlag(c),
                            ));
                        }
                        j = j + 1;
                    }
                    assert(rest@.take(rest_len as int) =~= rest@);
                } else if same_text(rest, "description") || same_text(rest, "descriptive") {
                    if descriptive {
                        let ghost before = notes@;
                        notes.push(ArgNote::RepeatedDescriptive(rest.to_owned()));
                        assert(notes_view(notes@) =~= notes_view(before).push(
                            NoteView::RepeatedDescriptive(rest@),
                        ));
                    }
                    descriptive = true;
                } else {
                    let ghost before = notes@;
                    notes.push(ArgNote::UnknownLongFlag(rest.to_owned()));
                    assert(notes_view(notes@) =~= notes_view(before).push(
                        NoteView::UnknownLongFlag(rest@),
                    ));
                }
            }
            i = i + 1;
        }
        assert(all.take(args@.len() as int) =~= all);
        Cli { file_path, display_options: DisplayOptions { descriptive }, notes }
    }
}

proof fn lemma_dashes_bounded(s: Seq<char>)
    ensures
        leading_dashes(s) <= s.len(),
    decreases s.len(),
{
    if s.len() > 0 && s[0] == '-' {
        lemma_dashes_bounded(s.drop_first());
    }
}

} // verus!
