//! The bracket syntax handed to the tree engine, and what the server advertises.
use vstd::prelude::*;

verus! {

/// One kind of bracket group: a tag naming it and its opening and closing tokens.
pub struct BracketPair {
    pub tag: String,
    pub open: String,
    pub close: String,
}

/// A declarative description of a bracket language.
pub struct SyntaxProfile {
    /// Characters that only separate tokens.
    pub separators: Vec<String>,
    /// The character that takes the special meaning from the one after it.
    pub escape: Option<String>,
    /// The bracket groups, in order.
    pub brackets: Vec<BracketPair>,
    /// Prefix and infix operator tokens, in order.
    pub operators: Vec<String>,
}

/// The texts of a list of strings.
pub open spec fn texts(v: Seq<String>) -> Seq<Seq<char>> {
    v.map_values(|s: String| s@)
}

/// The separators of s-expressions: space, line feed, tab, carriage return.
pub open spec fn sexp_separators() -> Seq<Seq<char>> {
    seq![seq![' '], seq!['\n'], seq!['\t'], seq!['\r']]
}

/// The profile for s-expressions: blanks separate, a backslash escapes, round
/// parentheses with an empty tag form the only bracket group, and there are
/// no operators.
pub fn sexp_profile() -> (r: SyntaxProfile)
    ensures
        texts(r.separators@) == sexp_separators(),
        r.escape is Some && r.escape->0@ == seq!['\\'],
        r.brackets.len() == 1,
        r.brackets@[0].tag@ == Seq::<char>::empty(),
        r.brackets@[0].open@ == seq!['('],
        r.brackets@[0].close@ == seq![')'],
        r.operators.len() == 0,
{
    proof {
        reveal_strlit(" ");
        reveal_strlit("\n");
        reveal_strlit("\t");
        reveal_strlit("\r");
        reveal_strlit("\\");
        reveal_strlit("");
        reveal_strlit("(");
        reveal_strlit(")");
    }
    let separators = vec![" ".to_owned(), "\n".to_owned(), "\t".to_owned(), "\r".to_owned()];
    assert(separators@[0]@ =~= seq![' ']);
    assert(separators@[1]@ =~= seq!['\n']);
    assert(separators@[2]@ =~= seq!['\t']);
    assert(separators@[3]@ =~= seq!['\r']);
    assert(texts(separators@) =~= sexp_separators());
    let brackets = vec![BracketPair { tag: "".to_owned(), open: "(".to_owned(), close: ")".to_owned() }];
    SyntaxProfile {
        separators,
        escape: Some("\\".to_owned()),
        brackets,
        operators: Vec::new(),
    }
}

/// The name of the command that widens a selection.
pub open spec fn expand_selection_name() -> Seq<char> {
    "expandSelection"@
}

/// The name of the command that moves the cursor to the start of its node.
pub open spec fn move_cursor_to_start_name() -> Seq<char> {
    "moveCursorToStart"@
}

/// What the server advertises when a session starts.
pub struct Capabilities {
    /// Documents are synchronised by sending their whole text.
    pub full_sync: bool,
    /// Hover requests are answered.
    pub hover: bool,
    /// The commands that `executeCommand` runs.
    pub commands: Vec<String>,
}

/// The capabilities of this server: whole-text sync, hover, and the two
/// structural commands.
pub fn capabilities() -> (r: Capabilities)
    ensures
        r.full_sync,
        r.hover,
        texts(r.commands@) == seq![expand_selection_name(), move_cursor_to_start_name()],
{
    let commands = vec!["expandSelection".to_owned(), "moveCursorToStart".to_owned()];
    assert(texts(commands@) =~= seq![expand_selection_name(), move_cursor_to_start_name()]);
    Capabilities { full_sync: true, hover: true, commands }
}

} // verus!
