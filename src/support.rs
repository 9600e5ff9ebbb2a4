//! The support message shown after a successful run, and the pieces it is
//! made of.
use vstd::prelude::*;
use vstd::string::*;
use vstd::utf8::encode_utf8;

use crate::substitution::{chars_of, occurs_at, replace, replaced};

verus! {

broadcast use vstd::string::group_string_axioms;

/// Where new issues about this program are filed.
pub const REPOSITORY: &'static str = "https://github.com/DenisGorbachev/create-rust-github-repo";

/// The name of the setting that controls how often the support message shows.
pub const SUPPORT_LINK_FIELD_NAME: &'static str = "support_link_probability";

/// The length of `s` in UTF-8 bytes.
pub open spec fn byte_len(s: Seq<char>) -> nat {
    encode_utf8(s).len()
}

/// The largest byte length among `lines`, or 0 when there are none.
pub open spec fn widest(lines: Seq<Seq<char>>) -> nat
    decreases lines.len(),
{
    if lines.len() == 0 {
        0
    } else {
        let rest = widest(lines.drop_last());
        let last = byte_len(lines.last());
        if rest >= last {
            rest
        } else {
            last
        }
    }
}

/// `n` copies of `c`.
pub open spec fn repeated(c: char, n: nat) -> Seq<char> {
    Seq::new(n, |_i: int| c)
}

/// One row of a box `width` bytes wide that holds `line`.
pub open spec fn box_row(line: Seq<char>, width: nat) -> Seq<char> {
    "+ "@ + line + repeated(' ', (width - 4 - byte_len(line)) as nat) + " +"@
}

/// `lines` framed by `+`: a border row, one row per line padded to the widest
/// line, and a border row again. No lines give no box at all.
pub open spec fn boxed(lines: Seq<Seq<char>>) -> Seq<Seq<char>> {
    if lines.len() == 0 {
        seq![]
    } else {
        let width = widest(lines) + 4;
        let border = repeated('+', width);
        seq![border] + Seq::new(lines.len(), |i: int| box_row(lines[i], width)) + seq![border]
    }
}

/// `n` copies of `c` as a string.
fn repeat_char(c: &str, n: usize) -> (r: String)
    requires
        c@.len() == 1,
    ensures
        r@ == repeated(c@[0], n as nat),
{
    let mut r = String::new();
    for i in 0..n
        invariant
            c@.len() == 1,
            r@ == repeated(c@[0], i as nat),
    {
        r.append(c);
        assert(r@ =~= repeated(c@[0], (i + 1) as nat));
    }
    r
}

/// The rows of a box drawn round `lines`, each to be written on a line of
/// its own.
pub fn display_message_box(lines: &Vec<String>) -> (r: Vec<String>)
    ensures
        r.deep_view() == boxed(lines.deep_view()),
{
    let ghost ls = lines.deep_view();
    let mut r: Vec<String> = Vec::new();
    if lines.len() == 0 {
        assert(r.deep_view() =~= boxed(ls));
        return r;
    }
    let mut widest_len: usize = 0;
    for i in 0..lines.len()
        invariant
            ls == lines.deep_view(),
            widest_len == widest(ls.take(i as int)),
    {
        let len = lines[i].as_str().as_bytes().len();
        assert(ls.take(i + 1).drop_last() =~= ls.take(i as int));
        assert(ls[i as int] == lines@[i as int]@);
        assert(ls.take(i + 1).last() == ls[i as int]);
        assert(len == byte_len(ls[i as int]));
        if len > widest_len {
            widest_len = len;
        }
    }
    assert(ls.take(lines@.len() as int) =~= ls);
    let ghost width: nat = (widest_len + 4) as nat;
    proof {
        assert forall|k: int| 0 <= k < ls.len() implies byte_len(#[trigger] ls[k]) <= widest(ls) by {
            lemma_widest_bounds(ls, k);
        }
    }
    proof {
        reveal_strlit("+");
        reveal_strlit("++++");
    }
    let border = repeat_char("+", widest_len).concat("++++");
    assert(border@ =~= repeated('+', width));
    r.push(border.clone());
    assert(r.deep_view() =~= seq![repeated('+', width)] + Seq::new(
        0,
        |k: int| box_row(ls[k], width),
    ));
    for i in 0..lines.len()
        invariant
            ls == lines.deep_view(),
            width == widest(ls) + 4,
            widest_len == widest(ls),
            ls.len() > 0,
            forall|k: int| 0 <= k < ls.len() ==> byte_len(#[trigger] ls[k]) <= widest(ls),
            r.deep_view() =~= seq![repeated('+', width)] + Seq::new(
                i as nat,
                |k: int| box_row(ls[k], width),
            ),
    {
        let line = lines[i].as_str();
        assert(line@ == ls[i as int]);
        let pad = widest_len - line.as_bytes().len();
        proof {
            reveal_strlit(" ");
        }
        let row = String::from_str("+ ").concat(line).concat(repeat_char(" ", pad).as_str()).concat(
            " +",
        );
        assert(row@ == box_row(ls[i as int], width));
        let ghost before = r.deep_view();
        let ghost row_view = row@;
        r.push(row);
        assert(r.deep_view() =~= before.push(row_view));
        assert(r.deep_view() =~= seq![repeated('+', width)] + Seq::new(
            (i + 1) as nat,
            |k: int| box_row(ls[k], width),
        ));
    }
    r.push(border);
    assert(r.deep_view() =~= boxed(ls));
    r
}

/// Each line's byte length is at most the widest.
proof fn lemma_widest_bounds(lines: Seq<Seq<char>>, k: int)
    requires
        0 <= k < lines.len(),
    ensures
        byte_len(lines[k]) <= widest(lines),
    decreases lines.len(),
{
    if k < lines.len() - 1 {
        lemma_widest_bounds(lines.drop_last(), k);
    }
}


/// The page for opening a new issue on a GitHub repository, or nothing when
/// `repo` is not a GitHub address.
pub open spec fn new_issue_url(repo: Seq<char>) -> Option<Seq<char>> {
    if "https://github.com/"@.is_prefix_of(repo) {
        Some(repo + "/issues/new"@)
    } else {
        None
    }
}

/// The command-line option that sets the field named `field`: `--` and the
/// name with each `_` turned into `-`.
pub open spec fn option_name(field: Seq<char>) -> Seq<char> {
    "--"@ + replaced(field, "_"@, "-"@)
}

/// Whether a run at `timestamp` shows the support message: one run in
/// `probability` does, none when it is 0.
pub open spec fn support_link_due(probability: u64, timestamp: u64) -> bool {
    probability != 0 && timestamp % probability == 0
}

/// The lines of the support message for a program called `exe` whose issues
/// are opened at `issue_url`.
pub open spec fn support_message(exe: Seq<char>, issue_url: Seq<char>) -> Seq<Seq<char>> {
    boxed(
        seq![
            ""@,
            "Thank you for using "@ + exe + "!"@,
            ""@,
            "Can we make it better for you?"@,
            "Open an issue at "@ + issue_url,
            ""@,
        ],
    ) + seq![
        "The message above can be disabled with "@ + option_name(SUPPORT_LINK_FIELD_NAME@)
            + " option"@,
    ]
}

/// The page for opening a new issue on the GitHub repository at `repo_url`;
/// nothing for an address elsewhere.
pub fn get_new_issue_url(repo_url: &str) -> (r: Option<String>)
    ensures
        r.deep_view() == new_issue_url(repo_url@),
{
    let rc = chars_of(repo_url);
    let pc = chars_of("https://github.com/");
    assert(repo_url@.skip(0) =~= repo_url@);
    if occurs_at(&rc, &pc, 0) {
        Some(String::from_str(repo_url).concat("/issues/new"))
    } else {
        None
    }
}

/// The command-line option for the settings field `field_name`.
pub fn get_option_name_from_field_name(field_name: &str) -> (r: String)
    ensures
        r@ == option_name(field_name@),
{
    let dashed = replace(field_name, "_", "-");
    String::from_str("--").concat(dashed.as_str())
}

/// Whether the run at `timestamp` shows the support message.
pub fn support_link_is_due(probability: u64, timestamp: u64) -> (r: bool)
    ensures
        r == support_link_due(probability, timestamp),
{
    probability != 0 && timestamp % probability == 0
}

/// The support message for the program `exe`, whose issues are opened at
/// `issue_url`: a box of thanks and the address, then how to turn it off.
pub fn support_message_lines(exe: &str, issue_url: &str) -> (r: Vec<String>)
    ensures
        r.deep_view() == support_message(exe@, issue_url@),
{
    let thank_you = String::from_str("Thank you for using ").concat(exe).concat("!");
    let open_issue = String::from_str("Open an issue at ").concat(issue_url);
    let mut lines: Vec<String> = Vec::new();
    lines.push(String::new());
    lines.push(thank_you);
    lines.push(String::new());
    lines.push(String::from_str("Can we make it better for you?"));
    lines.push(open_issue);
    lines.push(String::new());
    proof {
        reveal_strlit("");
    }
    assert(""@ =~= Seq::<char>::empty());
    assert(lines.deep_view() =~= seq![
        ""@,
        "Thank you for using "@ + exe@ + "!"@,
        ""@,
        "Can we make it better for you?"@,
        "Open an issue at "@ + issue_url@,
        ""@,
    ]);
    let mut r = display_message_box(&lines);
    let option = get_option_name_from_field_name(SUPPORT_LINK_FIELD_NAME);
    let footer = String::from_str("The message above can be disabled with ").concat(
        option.as_str(),
    ).concat(" option");
    let ghost boxed_view = r.deep_view();
    r.push(footer);
    assert(r.deep_view() =~= boxed_view.push(footer@));
    r
}

} // verus!
