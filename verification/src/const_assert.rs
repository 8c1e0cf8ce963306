//! The assertion grammar of the `const_assert!` macro and the code that it
//! expands to.
//!
//! The input of the macro is an expression, optionally followed by a comma
//! and a string literal. A call of `any`, `all`, `none` or `not` groups its
//! arguments; any other expression is a single condition. The expansion
//! evaluates the whole tree at compile time and panics with the given message,
//! or with the assertion itself, when it does not hold.

use vstd::prelude::*;

verus! {

/// An expression of the macro's input, reduced to what the grammar reads.
pub enum SourceExpr {
    /// A call. `head` holds the callee's name when the callee is a path made
    /// of one plain identifier; `text` is the source of the whole call.
    Call { head: Option<String>, args: Vec<SourceExpr>, text: String },
    /// Any other expression, by its source.
    Other { text: String },
}

/// A tree of conditions.
pub enum ConstAssertions {
    /// One condition, an expression that evaluates to `bool`.
    Single(Box<SourceExpr>),
    /// Holds when every item holds.
    All(Vec<ConstAssertions>),
    /// Holds when some item holds.
    Any(Vec<ConstAssertions>),
    /// Holds when no item holds.
    Not(Vec<ConstAssertions>),
}

/// The whole input of the macro: the assertions and the source of the
/// optional message literal.
pub struct ConstAssertInput {
    pub assertions: ConstAssertions,
    pub message: Option<String>,
}

/// The source text of an expression.
pub open spec fn source_text(expr: SourceExpr) -> Seq<char> {
    match expr {
        SourceExpr::Call { text, .. } => text@,
        SourceExpr::Other { text } => text@,
    }
}

/// `expr` is a call whose callee is the plain identifier `word`.
pub open spec fn calls_word(expr: SourceExpr, word: Seq<char>) -> bool {
    match expr {
        SourceExpr::Call { head, .. } => head matches Some(h) && h@ == word,
        SourceExpr::Other { .. } => false,
    }
}

/// `tree` is what the grammar reads from `expr`: a call of `any`, `all`,
/// `none` or `not` becomes the group of what its arguments read as, and any
/// other expression becomes a single condition holding it unchanged.
pub open spec fn reads_as(expr: SourceExpr, tree: ConstAssertions) -> bool
    decreases expr, 0nat,
{
    match expr {
        SourceExpr::Call { head, args, text } => {
            if calls_word(expr, "any"@) {
                tree matches ConstAssertions::Any(items) && items@.len() == args@.len()
                    && all_read_as(args@, items@, args@.len())
            } else if calls_word(expr, "all"@) {
                tree matches ConstAssertions::All(items) && items@.len() == args@.len()
                    && all_read_as(args@, items@, args@.len())
            } else if calls_word(expr, "none"@) || calls_word(expr, "not"@) {
                tree matches ConstAssertions::Not(items) && items@.len() == args@.len()
                    && all_read_as(args@, items@, args@.len())
            } else {
                tree == ConstAssertions::Single(Box::new(expr))
            }
        },
        SourceExpr::Other { .. } => tree == ConstAssertions::Single(Box::new(expr)),
    }
}

/// The first `n` items read as the first `n` arguments.
pub open spec fn all_read_as(args: Seq<SourceExpr>, items: Seq<ConstAssertions>, n: nat) -> bool
    decreases args, n,
{
    if n == 0 {
        true
    } else if n > args.len() {
        false
    } else {
        all_read_as(args, items, (n - 1) as nat) && reads_as(args[n - 1], items[n - 1])
    }
}



/// The code that checks `tree`: each condition in parentheses, the items of
/// `All` joined by `&&`, those of `Any` by `||`, and those of `Not`, each
/// negated, by `&&`; every group in parentheses.
pub open spec fn assertion_code(tree: ConstAssertions) -> Seq<char>
    decreases tree, 0nat,
{
    match tree {
        ConstAssertions::Single(expr) => "("@ + source_text(*expr) + ")"@,
        ConstAssertions::All(items) => "("@ + joined_code(items@, items@.len(), "&&"@, false) + ")"@,
        ConstAssertions::Any(items) => "("@ + joined_code(items@, items@.len(), "||"@, false) + ")"@,
        ConstAssertions::Not(items) => "("@ + joined_code(items@, items@.len(), "&&"@, true) + ")"@,
    }
}

/// The code of the first `n` items, each preceded by `!` when `negate`
/// holds, joined by `separator`.
pub open spec fn joined_code(
    items: Seq<ConstAssertions>,
    n: nat,
    separator: Seq<char>,
    negate: bool,
) -> Seq<char>
    decreases items, n,
{
    if n == 0 || n > items.len() {
        Seq::empty()
    } else {
        let piece = if negate {
            "!"@ + assertion_code(items[n - 1])
        } else {
            assertion_code(items[n - 1])
        };
        if n == 1 {
            piece
        } else {
            joined_code(items, (n - 1) as nat, separator, negate) + separator + piece
        }
    }
}

/// The assertion as its author wrote it in the grammar: a condition by its
/// source, a group as `all(..)`, `any(..)`, `not(..)` for a single negated
/// item or `none(..)` otherwise, with the items separated by `, `.
pub open spec fn assertion_message(tree: ConstAssertions) -> Seq<char>
    decreases tree, 0nat,
{
    match tree {
        ConstAssertions::Single(expr) => source_text(*expr),
        ConstAssertions::All(items) => "all("@ + joined_message(items@, items@.len()) + ")"@,
        ConstAssertions::Any(items) => "any("@ + joined_message(items@, items@.len()) + ")"@,
        ConstAssertions::Not(items) => if items@.len() == 1 {
            "not("@ + joined_message(items@, items@.len()) + ")"@
        } else {
            "none("@ + joined_message(items@, items@.len()) + ")"@
        },
    }
}

/// The messages of the first `n` items separated by `, `.
pub open spec fn joined_message(items: Seq<ConstAssertions>, n: nat) -> Seq<char>
    decreases items, n,
{
    if n == 0 || n > items.len() {
        Seq::empty()
    } else if n == 1 {
        assertion_message(items[0])
    } else {
        joined_message(items, (n - 1) as nat) + ", "@ + assertion_message(items[n - 1])
    }
}

/// The expansion of the macro: a `const` block that panics with the message
/// literal, or else with `Assertion failed: ` and the assertion, when the
/// assertions do not hold.
pub open spec fn expansion(input: ConstAssertInput) -> Seq<char> {
    let check = "const { if !("@ + assertion_code(input.assertions) + ") { panic!("@;
    match input.message {
        Some(message) => check + message@ + "); } }"@,
        None => check + "::core::concat!(\"Assertion failed: \", stringify!("@
            + assertion_message(input.assertions) + "))); } }"@,
    }
}

/// Whether the first `n` items read as the first `n` arguments depends on
/// those items alone.
proof fn lemma_read_as_prefix(
    args: Seq<SourceExpr>,
    items: Seq<ConstAssertions>,
    other: Seq<ConstAssertions>,
    n: nat,
)
    requires
        n <= items.len(),
        n <= other.len(),
        forall|i: int| 0 <= i < n ==> items[i] == other[i],
    ensures
        all_read_as(args, items, n) == all_read_as(args, other, n),
    decreases n,
{
    if n > 0 {
        lemma_read_as_prefix(args, items, other, (n - 1) as nat);
    }
}

/// Reading gives one expansion: any two trees read from the same expression
/// check the same code and spell the same message.
pub proof fn law_reading_is_deterministic(expr: SourceExpr, tree: ConstAssertions, other: ConstAssertions)
    requires
        reads_as(expr, tree),
        reads_as(expr, other),
    ensures
        assertion_code(tree) == assertion_code(other),
        assertion_message(tree) == assertion_message(other),
    decreases expr, 0nat,
{
    if let SourceExpr::Call { args, .. } = expr {
        if calls_word(expr, "any"@) || calls_word(expr, "all"@) || calls_word(expr, "none"@)
            || calls_word(expr, "not"@) {
            let items = tree_items(tree);
            let others = tree_items(other);
            lemma_read_items_are_unique(args@, items, others, args@.len());
            assert(joined_code(items, items.len(), "&&"@, false) == joined_code(
                others,
                others.len(),
                "&&"@,
                false,
            ));
            assert(joined_code(items, items.len(), "||"@, false) == joined_code(
                others,
                others.len(),
                "||"@,
                false,
            ));
            assert(joined_code(items, items.len(), "&&"@, true) == joined_code(
                others,
                others.len(),
                "&&"@,
                true,
            ));
        }
    }
}

/// The items of a group; a single condition has none.
pub open spec fn tree_items(tree: ConstAssertions) -> Seq<ConstAssertions> {
    match tree {
        ConstAssertions::Single(_) => Seq::empty(),
        ConstAssertions::All(items) => items@,
        ConstAssertions::Any(items) => items@,
        ConstAssertions::Not(items) => items@,
    }
}

/// The joined code and messages of items read from the same arguments agree.
proof fn lemma_read_items_are_unique(
    args: Seq<SourceExpr>,
    items: Seq<ConstAssertions>,
    other: Seq<ConstAssertions>,
    n: nat,
)
    requires
        n <= args.len(),
        items.len() == args.len(),
        other.len() == args.len(),
        all_read_as(args, items, n),
        all_read_as(args, other, n),
    ensures
        forall|separator: Seq<char>, negate: bool|
            #[trigger] joined_code(items, n, separator, negate) == joined_code(
                other,
                n,
                separator,
                negate,
            ),
        joined_message(items, n) == joined_message(other, n),
    decreases args, n,
{
    if n > 0 {
        lemma_read_items_are_unique(args, items, other, (n - 1) as nat);
        law_reading_is_deterministic(args[n - 1], items[n - 1], other[n - 1]);
        assert forall|separator: Seq<char>, negate: bool|
            #[trigger] joined_code(items, n, separator, negate) == joined_code(
                other,
                n,
                separator,
                negate,
            ) by {
            assert(joined_code(items, (n - 1) as nat, separator, negate) == joined_code(
                other,
                (n - 1) as nat,
                separator,
                negate,
            ));
        }
    }
}

/// `not` is another name for `none`: a call of either on the same arguments
/// reads as an assertion with the same code and the same message.
pub proof fn law_not_is_none(
    not_call: SourceExpr,
    none_call: SourceExpr,
    not_tree: ConstAssertions,
    none_tree: ConstAssertions,
)
    requires
        calls_word(not_call, "not"@),
        calls_word(none_call, "none"@),
        not_call matches SourceExpr::Call { args: a, .. } && none_call matches SourceExpr::Call {
            args: b,
            ..
        } && a@ == b@,
        reads_as(not_call, not_tree),
        reads_as(none_call, none_tree),
    ensures
        assertion_code(not_tree) == assertion_code(none_tree),
        assertion_message(not_tree) == assertion_message(none_tree),
{
    reveal_strlit("any");
    reveal_strlit("all");
    reveal_strlit("none");
    reveal_strlit("not");
    if let SourceExpr::Call { args, .. } = not_call {
        assert("not"@[0] != "any"@[0] && "not"@[0] != "all"@[0]);
        assert("none"@[0] != "any"@[0] && "none"@[0] != "all"@[0]);
        let items = tree_items(not_tree);
        let others = tree_items(none_tree);
        lemma_read_items_are_unique(args@, items, others, args@.len());
        assert(joined_code(items, items.len(), "&&"@, true) == joined_code(
            others,
            others.len(),
            "&&"@,
            true,
        ));
    }
}

/// The sources of the first `n` expressions separated by `, `.
pub open spec fn joined_source(args: Seq<SourceExpr>, n: nat) -> Seq<char>
    decreases n,
{
    if n == 0 || n > args.len() {
        Seq::empty()
    } else if n == 1 {
        source_text(args[0])
    } else {
        joined_source(args, (n - 1) as nat) + ", "@ + source_text(args[n - 1])
    }
}

/// `expr` is spelled as the default message spells assertions: every group
/// is written as its word, `(`, its arguments separated by `, `, and `)`,
/// with `not` for a group of one and `none` for any other count. A single
/// condition may be spelled in any way.
pub open spec fn spelled_canonically(expr: SourceExpr) -> bool
    decreases expr, 0nat,
{
    match expr {
        SourceExpr::Call { head, args, text } => {
            if calls_word(expr, "any"@) {
                text@ == "any("@ + joined_source(args@, args@.len()) + ")"@
                    && all_spelled_canonically(args@, args@.len())
            } else if calls_word(expr, "all"@) {
                text@ == "all("@ + joined_source(args@, args@.len()) + ")"@
                    && all_spelled_canonically(args@, args@.len())
            } else if calls_word(expr, "not"@) && args@.len() == 1 {
                text@ == "not("@ + joined_source(args@, args@.len()) + ")"@
                    && all_spelled_canonically(args@, args@.len())
            } else if calls_word(expr, "none"@) && args@.len() != 1 {
                text@ == "none("@ + joined_source(args@, args@.len()) + ")"@
                    && all_spelled_canonically(args@, args@.len())
            } else {
                !calls_word(expr, "none"@) && !calls_word(expr, "not"@)
            }
        },
        SourceExpr::Other { .. } => true,
    }
}

/// The first `n` expressions are spelled canonically.
pub open spec fn all_spelled_canonically(args: Seq<SourceExpr>, n: nat) -> bool
    decreases args, n,
{
    if n == 0 {
        true
    } else if n > args.len() {
        false
    } else {
        all_spelled_canonically(args, (n - 1) as nat) && spelled_canonically(args[n - 1])
    }
}

/// The default message spells an assertion back as it was written: for an
/// expression spelled canonically, the message of the tree read from it is
/// its own source, so reading the message again gives the same tree.
pub proof fn law_message_spells_source(expr: SourceExpr, tree: ConstAssertions)
    requires
        spelled_canonically(expr),
        reads_as(expr, tree),
    ensures
        assertion_message(tree) == source_text(expr),
    decreases expr, 0nat,
{
    reveal_strlit("any");
    reveal_strlit("all");
    reveal_strlit("none");
    reveal_strlit("not");
    assert("not"@[0] != "any"@[0] && "not"@[0] != "all"@[0]);
    assert("none"@[0] != "any"@[0] && "none"@[0] != "all"@[0]);
    assert("none"@[2] != "not"@[2]);
    if let SourceExpr::Call { args, .. } = expr {
        if calls_word(expr, "any"@) || calls_word(expr, "all"@) || calls_word(expr, "none"@)
            || calls_word(expr, "not"@) {
            lemma_messages_spell_sources(args@, tree_items(tree), args@.len());
        }
    }
}

/// The joined messages of items read from canonically spelled arguments are
/// the joined sources of those arguments.
proof fn lemma_messages_spell_sources(
    args: Seq<SourceExpr>,
    items: Seq<ConstAssertions>,
    n: nat,
)
    requires
        n <= args.len(),
        items.len() == args.len(),
        all_spelled_canonically(args, n),
        all_read_as(args, items, n),
    ensures
        joined_message(items, n) == joined_source(args, n),
    decreases args, n,
{
    if n > 0 {
        lemma_messages_spell_sources(args, items, (n - 1) as nat);
        law_message_spells_source(args[n - 1], items[n - 1]);
    }
}

/// Pieces of text joined by a separator: nothing for no pieces, the piece
/// itself for one, and the separator between each two neighbours.
pub open spec fn separated(pieces: Seq<Seq<char>>, separator: Seq<char>) -> Seq<char>
    decreases pieces.len(),
{
    if pieces.len() == 0 {
        Seq::empty()
    } else if pieces.len() == 1 {
        pieces[0]
    } else {
        separated(pieces.drop_last(), separator) + separator + pieces.last()
    }
}

/// The code of each item, preceded by `!` when `negate` holds.
pub open spec fn item_codes(items: Seq<ConstAssertions>, negate: bool) -> Seq<Seq<char>> {
    Seq::new(
        items.len(),
        |i: int|
            if negate {
                "!"@ + assertion_code(items[i])
            } else {
                assertion_code(items[i])
            },
    )
}

/// The message of each item.
pub open spec fn item_messages(items: Seq<ConstAssertions>) -> Seq<Seq<char>> {
    Seq::new(items.len(), |i: int| assertion_message(items[i]))
}

proof fn lemma_joined_code_separates(
    items: Seq<ConstAssertions>,
    n: nat,
    separator: Seq<char>,
    negate: bool,
)
    requires
        n <= items.len(),
    ensures
        joined_code(items, n, separator, negate) == separated(
            item_codes(items.take(n as int), negate),
            separator,
        ),
    decreases n,
{
    if n > 1 {
        lemma_joined_code_separates(items, (n - 1) as nat, separator, negate);
        assert(item_codes(items.take(n as int), negate).drop_last() =~= item_codes(
            items.take(n - 1),
            negate,
        ));
    } else if n == 1 {
        assert(item_codes(items.take(1), negate).len() == 1);
    } else {
        assert(item_codes(items.take(0), negate).len() == 0);
    }
}

proof fn lemma_joined_message_separates(items: Seq<ConstAssertions>, n: nat)
    requires
        n <= items.len(),
    ensures
        joined_message(items, n) == separated(item_messages(items.take(n as int)), ", "@),
    decreases n,
{
    if n > 1 {
        lemma_joined_message_separates(items, (n - 1) as nat);
        assert(item_messages(items.take(n as int)).drop_last() =~= item_messages(
            items.take(n - 1),
        ));
    } else if n == 1 {
        assert(item_messages(items.take(1)).len() == 1);
    } else {
        assert(item_messages(items.take(0)).len() == 0);
    }
}

/// The code that checks a tree, whatever the number of items: a condition in
/// parentheses; the items of `All` joined by `&&`, so that it holds exactly
/// when every item holds; those of `Any` joined by `||`, so that it holds
/// when some item holds; and those of `Not`, each negated, joined by `&&`, so
/// that it holds when no item holds; every group in parentheses.
pub proof fn law_code_of_groups(tree: ConstAssertions)
    ensures
        tree matches ConstAssertions::Single(expr) ==> assertion_code(tree) == "("@ + source_text(
            *expr,
        ) + ")"@,
        tree matches ConstAssertions::All(items) ==> assertion_code(tree) == "("@ + separated(
            item_codes(items@, false),
            "&&"@,
        ) + ")"@,
        tree matches ConstAssertions::Any(items) ==> assertion_code(tree) == "("@ + separated(
            item_codes(items@, false),
            "||"@,
        ) + ")"@,
        tree matches ConstAssertions::Not(items) ==> assertion_code(tree) == "("@ + separated(
            item_codes(items@, true),
            "&&"@,
        ) + ")"@,
{
    match tree {
        ConstAssertions::Single(_) => {},
        ConstAssertions::All(items) => {
            lemma_joined_code_separates(items@, items@.len(), "&&"@, false);
            assert(items@.take(items@.len() as int) =~= items@);
        },
        ConstAssertions::Any(items) => {
            lemma_joined_code_separates(items@, items@.len(), "||"@, false);
            assert(items@.take(items@.len() as int) =~= items@);
        },
        ConstAssertions::Not(items) => {
            lemma_joined_code_separates(items@, items@.len(), "&&"@, true);
            assert(items@.take(items@.len() as int) =~= items@);
        },
    }
}

/// The default message of a tree, whatever the number of items: a condition
/// by its source, and a group as its word and its items' messages separated
/// by `, ` in parentheses, the word being `all`, `any`, `not` for a negated
/// group of one item and `none` for a negated group of any other count.
pub proof fn law_message_of_groups(tree: ConstAssertions)
    ensures
        tree matches ConstAssertions::Single(expr) ==> assertion_message(tree) == source_text(
            *expr,
        ),
        tree matches ConstAssertions::All(items) ==> assertion_message(tree) == "all("@
            + separated(item_messages(items@), ", "@) + ")"@,
        tree matches ConstAssertions::Any(items) ==> assertion_message(tree) == "any("@
            + separated(item_messages(items@), ", "@) + ")"@,
        tree is Not && tree_items(tree).len() == 1 ==> assertion_message(tree) == "not("@
            + separated(item_messages(tree_items(tree)), ", "@) + ")"@,
        tree is Not && tree_items(tree).len() != 1 ==> assertion_message(tree) == "none("@
            + separated(item_messages(tree_items(tree)), ", "@) + ")"@,
{
    match tree {
        ConstAssertions::Single(_) => {},
        ConstAssertions::All(items) => {
            lemma_joined_message_separates(items@, items@.len());
            assert(items@.take(items@.len() as int) =~= items@);
        },
        ConstAssertions::Any(items) => {
            lemma_joined_message_separates(items@, items@.len());
            assert(items@.take(items@.len() as int) =~= items@);
        },
        ConstAssertions::Not(items) => {
            lemma_joined_message_separates(items@, items@.len());
            assert(items@.take(items@.len() as int) =~= items@);
        },
    }
}

/// The expansion, whatever the assertions and whether or not a message is
/// given, is a `const` block whose panic is guarded by the negation of the
/// assertions' code; the panic carries the message literal when there is one,
/// and else `Assertion failed: ` followed by the assertion as written.
pub proof fn law_expansion_panics_when_assertions_fail(input: ConstAssertInput)
    ensures
        input.message matches Some(m) ==> expansion(input) == "const { if !("@ + assertion_code(
            input.assertions,
        ) + ") { panic!("@ + m@ + "); } }"@,
        input.message is None ==> expansion(input) == "const { if !("@ + assertion_code(
            input.assertions,
        ) + ") { panic!("@ + "::core::concat!(\"Assertion failed: \", stringify!("@
            + assertion_message(input.assertions) + "))); } }"@,
{
}

/// The arguments of a call; any other expression has none.
pub open spec fn call_args(expr: SourceExpr) -> Seq<SourceExpr> {
    match expr {
        SourceExpr::Call { args, .. } => args@,
        SourceExpr::Other { .. } => Seq::empty(),
    }
}

/// Every item of the first `n` reads as the argument in its place.
proof fn lemma_each_reads_as(args: Seq<SourceExpr>, items: Seq<ConstAssertions>, n: nat)
    requires
        n <= args.len(),
        all_read_as(args, items, n),
    ensures
        forall|i: int| 0 <= i < n ==> reads_as(#[trigger] args[i], items[i]),
    decreases n,
{
    if n > 0 {
        lemma_each_reads_as(args, items, (n - 1) as nat);
    }
}

/// What the grammar reads, whatever the number of arguments: a call of `any`
/// or `all` is an `Any` or `All` group of exactly its arguments, each read in
/// turn; a call of `none` or `not` is a `Not` group of them; any other
/// expression is a single condition holding it unchanged.
pub proof fn law_reading_groups(expr: SourceExpr, tree: ConstAssertions)
    requires
        reads_as(expr, tree),
    ensures
        calls_word(expr, "any"@) ==> tree is Any,
        calls_word(expr, "all"@) ==> tree is All,
        calls_word(expr, "none"@) || calls_word(expr, "not"@) ==> tree is Not,
        calls_word(expr, "any"@) || calls_word(expr, "all"@) || calls_word(expr, "none"@)
            || calls_word(expr, "not"@) ==> tree_items(tree).len() == call_args(expr).len() && (
        forall|i: int|
            0 <= i < call_args(expr).len() ==> reads_as(
                #[trigger] call_args(expr)[i],
                tree_items(tree)[i],
            )),
        !calls_word(expr, "any"@) && !calls_word(expr, "all"@) && !calls_word(expr, "none"@)
            && !calls_word(expr, "not"@) ==> tree == ConstAssertions::Single(Box::new(expr)),
{
    reveal_strlit("any");
    reveal_strlit("all");
    reveal_strlit("none");
    reveal_strlit("not");
    assert("all"@[1] != "any"@[1]);
    assert("not"@[0] != "any"@[0] && "not"@[0] != "all"@[0]);
    assert("none"@[0] != "any"@[0] && "none"@[0] != "all"@[0]);
    if let SourceExpr::Call { args, .. } = expr {
        if calls_word(expr, "any"@) || calls_word(expr, "all"@) || calls_word(expr, "none"@)
            || calls_word(expr, "not"@) {
            lemma_each_reads_as(args@, tree_items(tree), args@.len());
        }
    }
}

/// The source of an expression is the text it carries, call or not.
pub proof fn law_source_text(expr: SourceExpr)
    ensures
        expr matches SourceExpr::Call { text, .. } ==> source_text(expr) == text@,
        expr matches SourceExpr::Other { text } ==> source_text(expr) == text@,
        expr matches SourceExpr::Call { head, .. } ==> forall|word: Seq<char>|
            #[trigger] calls_word(expr, word) == (head matches Some(h) && h@ == word),
        expr is Other ==> forall|word: Seq<char>| !#[trigger] calls_word(expr, word),
{
}

impl SourceExpr {
    /// The source text of the expression.
    pub fn text(&self) -> (r: &String)
        ensures
            r@ == source_text(*self),
    {
        match self {
            SourceExpr::Call { text, .. } => text,
            SourceExpr::Other { text } => text,
        }
    }
}

/// `name` is the identifier `word`.
fn is_word(name: &String, word: &str) -> (r: bool)
    ensures
        r == (name@ == word@),
{
    *name == String::from_str(word)
}

impl ConstAssertions {
    /// Read the assertion tree of an expression.
    pub fn from_expr(expr: SourceExpr) -> (r: Self)
        ensures
            reads_as(expr, r),
        decreases expr,
    {
        match expr {
            SourceExpr::Call { head: Some(name), args, text } => {
                let any = is_word(&name, "any");
                let all = is_word(&name, "all");
                let none = is_word(&name, "none") || is_word(&name, "not");
                if any || all || none {
                    let ghost arg_seq = args@;
                    let mut rest = args;
                    let mut items: Vec<ConstAssertions> = Vec::new();
                    while rest.len() > 0
                        invariant
                            expr matches SourceExpr::Call { args: a, .. } && a@ == arg_seq,
                            items@.len() + rest@.len() == arg_seq.len(),
                            rest@ == arg_seq.skip(items@.len() as int),
                            all_read_as(arg_seq, items@, items@.len()),
                        decreases rest@.len(),
                    {
                        let ghost k = items@.len();
                        let ghost before = items@;
                        let arg = rest.remove(0);
                        let item = Self::from_expr(arg);
                        items.push(item);
                        proof {
                            lemma_read_as_prefix(arg_seq, before, items@, k);
                        }
                    }
                    if any {
                        ConstAssertions::Any(items)
                    } else if all {
                        ConstAssertions::All(items)
                    } else {
                        ConstAssertions::Not(items)
                    }
                } else {
                    ConstAssertions::Single(Box::new(SourceExpr::Call { head: Some(name), args, text }))
                }
            },
            other => ConstAssertions::Single(Box::new(other)),
        }
    }

    /// The code that checks the assertions.
    pub fn to_tokens(&self) -> (r: String)
        ensures
            r@ == assertion_code(*self),
        decreases self, 0nat,
    {
        let mut out = String::from_str("(");
        match self {
            ConstAssertions::Single(expr) => {
                out.append(expr.text().as_str());
            },
            ConstAssertions::All(items) => {
                let inner = Self::group_tokens(items, "&&", false);
                out.append(inner.as_str());
            },
            ConstAssertions::Any(items) => {
                let inner = Self::group_tokens(items, "||", false);
                out.append(inner.as_str());
            },
            ConstAssertions::Not(items) => {
                let inner = Self::group_tokens(items, "&&", true);
                out.append(inner.as_str());
            },
        }
        out.append(")");
        out
    }

    /// The code of the items, each preceded by `!` when `negate` holds,
    /// joined by `separator`.
    fn group_tokens(items: &Vec<ConstAssertions>, separator: &str, negate: bool) -> (r: String)
        ensures
            r@ == joined_code(items@, items@.len(), separator@, negate),
        decreases items@, 1nat,
    {
        let mut out = String::new();
        let mut index: usize = 0;
        while index < items.len()
            invariant
                index <= items@.len(),
                out@ == joined_code(items@, index as nat, separator@, negate),
            decreases items@.len() - index,
        {
            if index > 0 {
                out.append(separator);
            }
            if negate {
                out.append("!");
            }
            let piece = items[index].to_tokens();
            out.append(piece.as_str());
            index += 1;
        }
        out
    }
}

/// The assertion spelled out in the grammar, for the default panic message.
pub struct ConstAssertionsMessage<'a>(pub &'a ConstAssertions);

impl<'a> ConstAssertionsMessage<'a> {
    /// The assertion in the grammar's own words.
    pub fn to_tokens(&self) -> (r: String)
        ensures
            r@ == assertion_message(*self.0),
        decreases self.0, 0nat,
    {
        match self.0 {
            ConstAssertions::Single(expr) => expr.text().clone(),
            ConstAssertions::All(items) => {
                let mut out = String::from_str("all(");
                let inner = Self::group_message(items);
                out.append(inner.as_str());
                out.append(")");
                out
            },
            ConstAssertions::Any(items) => {
                let mut out = String::from_str("any(");
                let inner = Self::group_message(items);
                out.append(inner.as_str());
                out.append(")");
                out
            },
            ConstAssertions::Not(items) => {
                let mut out = if items.len() == 1 {
                    String::from_str("not(")
                } else {
                    String::from_str("none(")
                };
                let inner = Self::group_message(items);
                out.append(inner.as_str());
                out.append(")");
                out
            },
        }
    }

    /// The messages of the items separated by `, `.
    fn group_message(items: &Vec<ConstAssertions>) -> (r: String)
        ensures
            r@ == joined_message(items@, items@.len()),
        decreases items@, 1nat,
    {
        let mut out = String::new();
        let mut index: usize = 0;
        while index < items.len()
            invariant
                index <= items@.len(),
                out@ == joined_message(items@, index as nat),
            decreases items@.len() - index,
        {
            if index > 0 {
                out.append(", ");
            }
            let piece = ConstAssertionsMessage(&items[index]).to_tokens();
            out.append(piece.as_str());
            index += 1;
        }
        out
    }
}

impl ConstAssertInput {
    /// Read the input of the macro from its expression and the source of its
    /// optional message literal.
    pub fn parse(expr: SourceExpr, message: Option<String>) -> (r: Self)
        ensures
            reads_as(expr, r.assertions),
            r.message == message,
    {
        ConstAssertInput { assertions: ConstAssertions::from_expr(expr), message }
    }

    /// The code that the macro expands to.
    pub fn to_tokens(&self) -> (r: String)
        ensures
            r@ == expansion(*self),
    {
        let mut out = String::from_str("const { if !(");
        let check = self.assertions.to_tokens();
        out.append(check.as_str());
        out.append(") { panic!(");
        match &self.message {
            Some(message) => {
                out.append(message.as_str());
                out.append("); } }");
            },
            None => {
                out.append("::core::concat!(\"Assertion failed: \", stringify!(");
                let spelled = ConstAssertionsMessage(&self.assertions).to_tokens();
                out.append(spelled.as_str());
                out.append("))); } }");
            },
        }
        out
    }
}

} // verus!
