//! Syntax trees that are alike, and that trees with equal texts are alike.
use crate::ast::{
    BinaryOp, CteDef, Distinct, Expr, Identifier, JoinCondition, JoinOp, Literal, NullsOrder,
    ObjectName, OrderItem, SelectItem, SelectStmt, SetOp, SetOpTail, SetQuantifier, SortDirection,
    TableRef, UnaryOp, WindowSpec,
};
use crate::ast_text;
use crate::debug;
use crate::text;
use vstd::prelude::*;

verus! {

/// Whether a character can stand in a name or a number.
pub open spec fn word_char(c: char) -> bool {
    'a' <= c <= 'z' || 'A' <= c <= 'Z' || '0' <= c <= '9' || c == '_'
}

/// Whether a text is a name or a number.
pub open spec fn word(s: Seq<char>) -> bool {
    s.len() > 0 && forall|i: int| 0 <= i < s.len() ==> word_char(#[trigger] s[i])
}

/// Whether no name or number goes on in a text.
pub open spec fn stops(s: Seq<char>) -> bool {
    s.len() == 0 || !word_char(s[0])
}

/// What follows equal texts in equal texts is equal.
pub proof fn cancel(p: Seq<char>, a: Seq<char>, b: Seq<char>)
    requires
        p + a == p + b,
    ensures
        a == b,
{
    assert((p + a).skip(p.len() as int) =~= a);
    assert((p + b).skip(p.len() as int) =~= b);
}

/// A name or number and what follows it can be told apart.
pub proof fn words_split(a: Seq<char>, u: Seq<char>, b: Seq<char>, v: Seq<char>)
    requires
        a + u == b + v,
        word(a),
        word(b),
        stops(u),
        stops(v),
    ensures
        a == b,
        u == v,
{
    assert((a + u).len() == (b + v).len());
    if a.len() < b.len() {
        assert((a + u)[a.len() as int] == u[0]);
        assert((b + v)[a.len() as int] == b[a.len() as int]);
    } else if b.len() < a.len() {
        assert((b + v)[b.len() as int] == v[0]);
        assert((a + u)[b.len() as int] == a[b.len() as int]);
    }
    assert((a + u).take(a.len() as int) =~= a);
    assert((b + v).take(b.len() as int) =~= b);
    cancel(a, u, v);
}

proof fn codes_decode(m: int, n: int, u: Seq<char>, v: Seq<char>)
    requires
        0 <= m < 256,
        0 <= n < 256,
        debug::code_text(m) + ("}"@ + u) == debug::code_text(n) + ("}"@ + v),
    ensures
        m == n,
        u == v,
{
    reveal_strlit("}");
    let a = debug::code_text(m) + ("}"@ + u);
    let b = debug::code_text(n) + ("}"@ + v);
    assert(a[0] == b[0]);
    assert(a[1] == b[1]);
    if m >= 16 && n >= 16 {
        assert(a[0] == debug::hex_digit(m / 16));
        assert(b[0] == debug::hex_digit(n / 16));
        assert(a[1] == debug::hex_digit(m % 16));
        assert(b[1] == debug::hex_digit(n % 16));
        assert(m / 16 == n / 16 && m % 16 == n % 16);
    } else if m < 16 && n < 16 {
        assert(a[0] == debug::hex_digit(m));
        assert(b[0] == debug::hex_digit(n));
    } else if m < 16 {
        assert(a[1] == '}');
        assert(b[1] == debug::hex_digit(n % 16));
    } else {
        assert(b[1] == '}');
        assert(a[1] == debug::hex_digit(m % 16));
    }
    cancel(debug::code_text(m), "}"@ + u, "}"@ + v);
    cancel("}"@, u, v);
}

/// Whether a character is escaped in a quoted text.
spec fn escaped(c: char) -> bool {
    c == '"' || c == '\\' || debug::control(c)
}

/// The character behind the backslash of an escaped one.
spec fn mark(c: char) -> char {
    if c == '"' {
        '"'
    } else if c == '\\' {
        '\\'
    } else if c == '\n' {
        'n'
    } else if c == '\r' {
        'r'
    } else if c == '\t' {
        't'
    } else if c == '\0' {
        '0'
    } else {
        'u'
    }
}

proof fn quoted_starts(c: char)
    ensures
        debug::quoted_char(c).len() > 0,
        debug::quoted_char(c)[0] == if escaped(c) {
            '\\'
        } else {
            c
        },
        escaped(c) ==> debug::quoted_char(c).len() >= 2 && debug::quoted_char(c)[1] == mark(c),
{
    reveal_strlit("\\\"");
    reveal_strlit("\\\\");
    reveal_strlit("\\n");
    reveal_strlit("\\r");
    reveal_strlit("\\t");
    reveal_strlit("\\0");
    reveal_strlit("\\u{");
}

proof fn quoted_chars_decode(c: char, d: char, u: Seq<char>, v: Seq<char>)
    requires
        debug::quoted_char(c) + u == debug::quoted_char(d) + v,
    ensures
        c == d,
        u == v,
{
    quoted_starts(c);
    quoted_starts(d);
    let a = debug::quoted_char(c) + u;
    let b = debug::quoted_char(d) + v;
    assert(a[0] == debug::quoted_char(c)[0]);
    assert(b[0] == debug::quoted_char(d)[0]);
    if escaped(c) && escaped(d) {
        assert(a[1] == debug::quoted_char(c)[1]);
        assert(b[1] == debug::quoted_char(d)[1]);
        if a[1] == 'u' {
            let open = "\\u{"@;
            assert(debug::quoted_char(c) + u =~= open + (debug::code_text(c as int) + ("}"@ + u)));
            assert(debug::quoted_char(d) + v =~= open + (debug::code_text(d as int) + ("}"@ + v)));
            cancel(
                open,
                debug::code_text(c as int) + ("}"@ + u),
                debug::code_text(d as int) + ("}"@ + v),
            );
            codes_decode(c as int, d as int, u, v);
        }
    }
    cancel(debug::quoted_char(c), u, v);
}

proof fn quoted_tails_decode(a: Seq<char>, b: Seq<char>, i: int, s: Seq<char>, t: Seq<char>)
    requires
        0 <= i <= a.len(),
        i <= b.len(),
        ast_text::quoted_from(a, i, s) == ast_text::quoted_from(b, i, t),
    ensures
        a.len() == b.len(),
        forall|k: int| i <= k < a.len() ==> a[k] == b[k],
        s == t,
    decreases a.len() - i,
{
    reveal_strlit("\"");
    let x = ast_text::quoted_from(a, i, s);
    if i < a.len() {
        quoted_starts(a[i]);
        assert(x[0] == debug::quoted_char(a[i])[0]);
    }
    if i < b.len() {
        quoted_starts(b[i]);
        assert(ast_text::quoted_from(b, i, t)[0] == debug::quoted_char(b[i])[0]);
    }
    if i < a.len() && i < b.len() {
        quoted_chars_decode(
            a[i],
            b[i],
            ast_text::quoted_from(a, i + 1, s),
            ast_text::quoted_from(b, i + 1, t),
        );
        quoted_tails_decode(a, b, i + 1, s, t);
    } else if i == a.len() && i == b.len() {
        cancel("\""@, s, t);
    } else if i == a.len() {
        assert(x[0] == '"');
    } else {
        assert(ast_text::quoted_from(b, i, t)[0] == '"');
    }
}

proof fn quoted_decodes(a: Seq<char>, b: Seq<char>, s: Seq<char>, t: Seq<char>)
    requires
        ast_text::quoted_put(a, s) == ast_text::quoted_put(b, t),
    ensures
        a == b,
        s == t,
{
    cancel("\""@, ast_text::quoted_from(a, 0, s), ast_text::quoted_from(b, 0, t));
    quoted_tails_decode(a, b, 0, s, t);
    assert(a =~= b);
}

proof fn flag_decodes(a: bool, b: bool, s: Seq<char>, t: Seq<char>)
    requires
        ast_text::flag_put(a, s) == ast_text::flag_put(b, t),
        stops(s),
        stops(t),
    ensures
        a == b,
        s == t,
{
    reveal_strlit("true");
    reveal_strlit("false");
    words_split(ast_text::flag_tag(a), s, ast_text::flag_tag(b), t);
}

proof fn decimals_are_words(n: nat)
    ensures
        word(text::decimal(n)),
    decreases n,
{
    if n >= 10 {
        decimals_are_words(n / 10);
    }
}

proof fn decimals_decode(m: nat, n: nat)
    requires
        text::decimal(m) == text::decimal(n),
    ensures
        m == n,
    decreases m,
{
    decimals_are_words(m / 10);
    decimals_are_words(n / 10);
    let a = text::decimal(m);
    let b = text::decimal(n);
    assert(a.last() == b.last());
    if m >= 10 && n >= 10 {
        assert(a.drop_last() =~= text::decimal(m / 10));
        assert(b.drop_last() =~= text::decimal(n / 10));
        decimals_decode(m / 10, n / 10);
    }
}

proof fn index_decodes(a: u32, b: u32, s: Seq<char>, t: Seq<char>)
    requires
        ast_text::index_put(a, s) == ast_text::index_put(b, t),
        stops(s),
        stops(t),
    ensures
        a == b,
        s == t,
{
    decimals_are_words(a as nat);
    decimals_are_words(b as nat);
    words_split(text::decimal(a as nat), s, text::decimal(b as nat), t);
    decimals_decode(a as nat, b as nat);
}

spec fn unary_op_variant(x: UnaryOp) -> int {
    match x {
        UnaryOp::Neg => 0,
        UnaryOp::Pos => 1,
        UnaryOp::Not => 2,
        UnaryOp::BitNot => 3,
    }
}

spec fn unary_op_named(tag: Seq<char>) -> int {
    if tag == "Neg"@ {
        0
    } else if tag == "Pos"@ {
        1
    } else if tag == "Not"@ {
        2
    } else {
        3
    }
}

#[verifier::rlimit(40)]
proof fn unary_op_tags_are_words(x: UnaryOp)
    ensures
        word(ast_text::unary_op_tag(x)),
        unary_op_named(ast_text::unary_op_tag(x)) == unary_op_variant(x),
{
    reveal_strlit("Neg");
    reveal_strlit("Pos");
    reveal_strlit("Not");
    reveal_strlit("BitNot");
    assert("Neg"@.len() == 3);
    assert("Neg"@[0] == 'N' && "Neg"@[1] == 'e' && "Neg"@[2] == 'g');
    assert("Pos"@.len() == 3);
    assert("Pos"@[0] == 'P' && "Pos"@[1] == 'o' && "Pos"@[2] == 's');
    assert("Not"@.len() == 3);
    assert("Not"@[0] == 'N' && "Not"@[1] == 'o' && "Not"@[2] == 't');
    assert("BitNot"@.len() == 6);
    assert("BitNot"@[0] == 'B' && "BitNot"@[1] == 'i' && "BitNot"@[2] == 't'
        && "BitNot"@[3] == 'N' && "BitNot"@[4] == 'o' && "BitNot"@[5] == 't');
}

proof fn unary_op_decodes(x: UnaryOp, y: UnaryOp, s: Seq<char>, t: Seq<char>)
    requires
        ast_text::unary_op_put(x, s) == ast_text::unary_op_put(y, t),
        stops(s),
        stops(t),
    ensures
        x == y,
        s == t,
{
    unary_op_tags_are_words(x);
    unary_op_tags_are_words(y);
    words_split(ast_text::unary_op_tag(x), s, ast_text::unary_op_tag(y), t);
}

spec fn binary_op_variant(x: BinaryOp) -> int {
    match x {
        BinaryOp::Add => 0,
        BinaryOp::Sub => 1,
        BinaryOp::Mul => 2,
        BinaryOp::Div => 3,
        BinaryOp::Mod => 4,
        BinaryOp::Pow => 5,
        BinaryOp::Concat => 6,
        BinaryOp::Eq => 7,
        BinaryOp::NotEq => 8,
        BinaryOp::Lt => 9,
        BinaryOp::LtEq => 10,
        BinaryOp::Gt => 11,
        BinaryOp::GtEq => 12,
        BinaryOp::And => 13,
        BinaryOp::Or => 14,
        BinaryOp::Like => 15,
        BinaryOp::NotLike => 16,
        BinaryOp::Ilike => 17,
        BinaryOp::NotIlike => 18,
        BinaryOp::RegexMatch => 19,
        BinaryOp::RegexIMatch => 20,
        BinaryOp::RegexNotMatch => 21,
        BinaryOp::RegexNotIMatch => 22,
        BinaryOp::BitAnd => 23,
        BinaryOp::BitOr => 24,
        BinaryOp::BitXor => 25,
        BinaryOp::ShiftLeft => 26,
        BinaryOp::ShiftRight => 27,
        BinaryOp::JsonGet => 28,
        BinaryOp::JsonGetText => 29,
        BinaryOp::JsonGetPath => 30,
        BinaryOp::JsonGetPathText => 31,
        BinaryOp::JsonContains => 32,
        BinaryOp::JsonContained => 33,
        BinaryOp::JsonHasKey => 34,
        BinaryOp::JsonHasAnyKey => 35,
        BinaryOp::JsonHasAllKeys => 36,
        BinaryOp::Overlap => 37,
    }
}

spec fn binary_op_named(tag: Seq<char>) -> int {
    if tag == "Add"@ {
        0
    } else if tag == "Sub"@ {
        1
    } else if tag == "Mul"@ {
        2
    } else if tag == "Div"@ {
        3
    } else if tag == "Mod"@ {
        4
    } else if tag == "Pow"@ {
        5
    } else if tag == "Concat"@ {
        6
    } else if tag == "Eq"@ {
        7
    } else if tag == "NotEq"@ {
        8
    } else if tag == "Lt"@ {
        9
    } else if tag == "LtEq"@ {
        10
    } else if tag == "Gt"@ {
        11
    } else if tag == "GtEq"@ {
        12
    } else if tag == "And"@ {
        13
    } else if tag == "Or"@ {
        14
    } else if tag == "Like"@ {
        15
    } else if tag == "NotLike"@ {
        16
    } else if tag == "Ilike"@ {
        17
    } else if tag == "NotIlike"@ {
        18
    } else if tag == "RegexMatch"@ {
        19
    } else if tag == "RegexIMatch"@ {
        20
    } else if tag == "RegexNotMatch"@ {
        21
    } else if tag == "RegexNotIMatch"@ {
        22
    } else if tag == "BitAnd"@ {
        23
    } else if tag == "BitOr"@ {
        24
    } else if tag == "BitXor"@ {
        25
    } else if tag == "ShiftLeft"@ {
        26
    } else if tag == "ShiftRight"@ {
        27
    } else if tag == "JsonGet"@ {
        28
    } else if tag == "JsonGetText"@ {
        29
    } else if tag == "JsonGetPath"@ {
        30
    } else if tag == "JsonGetPathText"@ {
        31
    } else if tag == "JsonContains"@ {
        32
    } else if tag == "JsonContained"@ {
        33
    } else if tag == "JsonHasKey"@ {
        34
    } else if tag == "JsonHasAnyKey"@ {
        35
    } else if tag == "JsonHasAllKeys"@ {
        36
    } else {
        37
    }
}

#[verifier::rlimit(40)]
proof fn binary_op_tags_are_words(x: BinaryOp)
    ensures
        word(ast_text::binary_op_tag(x)),
        binary_op_named(ast_text::binary_op_tag(x)) == binary_op_variant(x),
{
    reveal_strlit("Add");
    reveal_strlit("Sub");
    reveal_strlit("Mul");
    reveal_strlit("Div");
    reveal_strlit("Mod");
    reveal_strlit("Pow");
    reveal_strlit("Concat");
    reveal_strlit("Eq");
    reveal_strlit("NotEq");
    reveal_strlit("Lt");
    reveal_strlit("LtEq");
    reveal_strlit("Gt");
    reveal_strlit("GtEq");
    reveal_strlit("And");
    reveal_strlit("Or");
    reveal_strlit("Like");
    reveal_strlit("NotLike");
    reveal_strlit("Ilike");
    reveal_strlit("NotIlike");
    reveal_strlit("RegexMatch");
    reveal_strlit("RegexIMatch");
    reveal_strlit("RegexNotMatch");
    reveal_strlit("RegexNotIMatch");
    reveal_strlit("BitAnd");
    reveal_strlit("BitOr");
    reveal_strlit("BitXor");
    reveal_strlit("ShiftLeft");
    reveal_strlit("ShiftRight");
    reveal_strlit("JsonGet");
    reveal_strlit("JsonGetText");
    reveal_strlit("JsonGetPath");
    reveal_strlit("JsonGetPathText");
    reveal_strlit("JsonContains");
    reveal_strlit("JsonContained");
    reveal_strlit("JsonHasKey");
    reveal_strlit("JsonHasAnyKey");
    reveal_strlit("JsonHasAllKeys");
    reveal_strlit("Overlap");
    assert("Add"@.len() == 3);
    assert("Add"@[0] == 'A' && "Add"@[1] == 'd' && "Add"@[2] == 'd');
    assert("Sub"@.len() == 3);
    assert("Sub"@[0] == 'S' && "Sub"@[1] == 'u' && "Sub"@[2] == 'b');
    assert("Mul"@.len() == 3);
    assert("Mul"@[0] == 'M' && "Mul"@[1] == 'u' && "Mul"@[2] == 'l');
    assert("Div"@.len() == 3);
    assert("Div"@[0] == 'D' && "Div"@[1] == 'i' && "Div"@[2] == 'v');
    assert("Mod"@.len() == 3);
    assert("Mod"@[0] == 'M' && "Mod"@[1] == 'o' && "Mod"@[2] == 'd');
    assert("Pow"@.len() == 3);
    assert("Pow"@[0] == 'P' && "Pow"@[1] == 'o' && "Pow"@[2] == 'w');
    assert("Concat"@.len() == 6);
    assert("Concat"@[0] == 'C' && "Concat"@[1] == 'o' && "Concat"@[2] == 'n'
        && "Concat"@[3] == 'c' && "Concat"@[4] == 'a' && "Concat"@[5] == 't');
    assert("Eq"@.len() == 2);
    assert("Eq"@[0] == 'E' && "Eq"@[1] == 'q');
    assert("NotEq"@.len() == 5);
    assert("NotEq"@[0] == 'N' && "NotEq"@[1] == 'o' && "NotEq"@[2] == 't' && "NotEq"@[3] == 'E'
        && "NotEq"@[4] == 'q');
    assert("Lt"@.len() == 2);
    assert("Lt"@[0] == 'L' && "Lt"@[1] == 't');
    assert("LtEq"@.len() == 4);
    assert("LtEq"@[0] == 'L' && "LtEq"@[1] == 't' && "LtEq"@[2] == 'E' && "LtEq"@[3] == 'q');
    assert("Gt"@.len() == 2);
    assert("Gt"@[0] == 'G' && "Gt"@[1] == 't');
    assert("GtEq"@.len() == 4);
    assert("GtEq"@[0] == 'G' && "GtEq"@[1] == 't' && "GtEq"@[2] == 'E' && "GtEq"@[3] == 'q');
    assert("And"@.len() == 3);
    assert("And"@[0] == 'A' && "And"@[1] == 'n' && "And"@[2] == 'd');
    assert("Or"@.len() == 2);
    assert("Or"@[0] == 'O' && "Or"@[1] == 'r');
    assert("Like"@.len() == 4);
    assert("Like"@[0] == 'L' && "Like"@[1] == 'i' && "Like"@[2] == 'k' && "Like"@[3] == 'e');
    assert("NotLike"@.len() == 7);
    assert("NotLike"@[0] == 'N' && "NotLike"@[1] == 'o' && "NotLike"@[2] == 't'
        && "NotLike"@[3] == 'L' && "NotLike"@[4] == 'i' && "NotLike"@[5] == 'k'
        && "NotLike"@[6] == 'e');
    assert("Ilike"@.len() == 5);
    assert("Ilike"@[0] == 'I' && "Ilike"@[1] == 'l' && "Ilike"@[2] == 'i' && "Ilike"@[3] == 'k'
        && "Ilike"@[4] == 'e');
    assert("NotIlike"@.len() == 8);
    assert("NotIlike"@[0] == 'N' && "NotIlike"@[1] == 'o' && "NotIlike"@[2] == 't'
        && "NotIlike"@[3] == 'I' && "NotIlike"@[4] == 'l' && "NotIlike"@[5] == 'i'
        && "NotIlike"@[6] == 'k' && "NotIlike"@[7] == 'e');
    assert("RegexMatch"@.len() == 10);
    assert("RegexMatch"@[0] == 'R' && "RegexMatch"@[1] == 'e' && "RegexMatch"@[2] == 'g'
        && "RegexMatch"@[3] == 'e' && "RegexMatch"@[4] == 'x' && "RegexMatch"@[5] == 'M'
        && "RegexMatch"@[6] == 'a' && "RegexMatch"@[7] == 't' && "RegexMatch"@[8] == 'c'
        && "RegexMatch"@[9] == 'h');
    assert("RegexIMatch"@.len() == 11);
    assert("RegexIMatch"@[0] == 'R' && "RegexIMatch"@[1] == 'e' && "RegexIMatch"@[2] == 'g'
        && "RegexIMatch"@[3] == 'e' && "RegexIMatch"@[4] == 'x' && "RegexIMatch"@[5] == 'I'
        && "RegexIMatch"@[6] == 'M' && "RegexIMatch"@[7] == 'a' && "RegexIMatch"@[8] == 't'
        && "RegexIMatch"@[9] == 'c' && "RegexIMatch"@[10] == 'h');
    assert("RegexNotMatch"@.len() == 13);
    assert("RegexNotMatch"@[0] == 'R' && "RegexNotMatch"@[1] == 'e' && "RegexNotMatch"@[2] == 'g'
        && "RegexNotMatch"@[3] == 'e' && "RegexNotMatch"@[4] == 'x' && "RegexNotMatch"@[5] == 'N'
        && "RegexNotMatch"@[6] == 'o' && "RegexNotMatch"@[7] == 't' && "RegexNotMatch"@[8] == 'M'
        && "RegexNotMatch"@[9] == 'a' && "RegexNotMatch"@[10] == 't'
        && "RegexNotMatch"@[11] == 'c' && "RegexNotMatch"@[12] == 'h');
    assert("RegexNotIMatch"@.len() == 14);
    assert("RegexNotIMatch"@[0] == 'R' && "RegexNotIMatch"@[1] == 'e'
        && "RegexNotIMatch"@[2] == 'g' && "RegexNotIMatch"@[3] == 'e'
        && "RegexNotIMatch"@[4] == 'x' && "RegexNotIMatch"@[5] == 'N'
        && "RegexNotIMatch"@[6] == 'o' && "RegexNotIMatch"@[7] == 't'
        && "RegexNotIMatch"@[8] == 'I' && "RegexNotIMatch"@[9] == 'M'
        && "RegexNotIMatch"@[10] == 'a' && "RegexNotIMatch"@[11] == 't'
        && "RegexNotIMatch"@[12] == 'c' && "RegexNotIMatch"@[13] == 'h');
    assert("BitAnd"@.len() == 6);
    assert("BitAnd"@[0] == 'B' && "BitAnd"@[1] == 'i' && "BitAnd"@[2] == 't'
        && "BitAnd"@[3] == 'A' && "BitAnd"@[4] == 'n' && "BitAnd"@[5] == 'd');
    assert("BitOr"@.len() == 5);
    assert("BitOr"@[0] == 'B' && "BitOr"@[1] == 'i' && "BitOr"@[2] == 't' && "BitOr"@[3] == 'O'
        && "BitOr"@[4] == 'r');
    assert("BitXor"@.len() == 6);
    assert("BitXor"@[0] == 'B' && "BitXor"@[1] == 'i' && "BitXor"@[2] == 't'
        && "BitXor"@[3] == 'X' && "BitXor"@[4] == 'o' && "BitXor"@[5] == 'r');
    assert("ShiftLeft"@.len() == 9);
    assert("ShiftLeft"@[0] == 'S' && "ShiftLeft"@[1] == 'h' && "ShiftLeft"@[2] == 'i'
        && "ShiftLeft"@[3] == 'f' && "ShiftLeft"@[4] == 't' && "ShiftLeft"@[5] == 'L'
        && "ShiftLeft"@[6] == 'e' && "ShiftLeft"@[7] == 'f' && "ShiftLeft"@[8] == 't');
    assert("ShiftRight"@.len() == 10);
    assert("ShiftRight"@[0] == 'S' && "ShiftRight"@[1] == 'h' && "ShiftRight"@[2] == 'i'
        && "ShiftRight"@[3] == 'f' && "ShiftRight"@[4] == 't' && "ShiftRight"@[5] == 'R'
        && "ShiftRight"@[6] == 'i' && "ShiftRight"@[7] == 'g' && "ShiftRight"@[8] == 'h'
        && "ShiftRight"@[9] == 't');
    assert("JsonGet"@.len() == 7);
    assert("JsonGet"@[0] == 'J' && "JsonGet"@[1] == 's' && "JsonGet"@[2] == 'o'
        && "JsonGet"@[3] == 'n' && "JsonGet"@[4] == 'G' && "JsonGet"@[5] == 'e'
        && "JsonGet"@[6] == 't');
    assert("JsonGetText"@.len() == 11);
    assert("JsonGetText"@[0] == 'J' && "JsonGetText"@[1] == 's' && "JsonGetText"@[2] == 'o'
        && "JsonGetText"@[3] == 'n' && "JsonGetText"@[4] == 'G' && "JsonGetText"@[5] == 'e'
        && "JsonGetText"@[6] == 't' && "JsonGetText"@[7] == 'T' && "JsonGetText"@[8] == 'e'
        && "JsonGetText"@[9] == 'x' && "JsonGetText"@[10] == 't');
    assert("JsonGetPath"@.len() == 11);
    assert("JsonGetPath"@[0] == 'J' && "JsonGetPath"@[1] == 's' && "JsonGetPath"@[2] == 'o'
        && "JsonGetPath"@[3] == 'n' && "JsonGetPath"@[4] == 'G' && "JsonGetPath"@[5] == 'e'
        && "JsonGetPath"@[6] == 't' && "JsonGetPath"@[7] == 'P' && "JsonGetPath"@[8] == 'a'
        && "JsonGetPath"@[9] == 't' && "JsonGetPath"@[10] == 'h');
    assert("JsonGetPathText"@.len() == 15);
    assert("JsonGetPathText"@[0] == 'J' && "JsonGetPathText"@[1] == 's'
        && "JsonGetPathText"@[2] == 'o' && "JsonGetPathText"@[3] == 'n'
        && "JsonGetPathText"@[4] == 'G' && "JsonGetPathText"@[5] == 'e'
        && "JsonGetPathText"@[6] == 't' && "JsonGetPathText"@[7] == 'P'
        && "JsonGetPathText"@[8] == 'a' && "JsonGetPathText"@[9] == 't'
        && "JsonGetPathText"@[10] == 'h' && "JsonGetPathText"@[11] == 'T'
        && "JsonGetPathText"@[12] == 'e' && "JsonGetPathText"@[13] == 'x'
        && "JsonGetPathText"@[14] == 't');
    assert("JsonContains"@.len() == 12);
    assert("JsonContains"@[0] == 'J' && "JsonContains"@[1] == 's' && "JsonContains"@[2] == 'o'
        && "JsonContains"@[3] == 'n' && "JsonContains"@[4] == 'C' && "JsonContains"@[5] == 'o'
        && "JsonContains"@[6] == 'n' && "JsonContains"@[7] == 't' && "JsonContains"@[8] == 'a'
        && "JsonContains"@[9] == 'i' && "JsonContains"@[10] == 'n' && "JsonContains"@[11] == 's');
    assert("JsonContained"@.len() == 13);
    assert("JsonContained"@[0] == 'J' && "JsonContained"@[1] == 's' && "JsonContained"@[2] == 'o'
        && "JsonContained"@[3] == 'n' && "JsonContained"@[4] == 'C' && "JsonContained"@[5] == 'o'
        && "JsonContained"@[6] == 'n' && "JsonContained"@[7] == 't' && "JsonContained"@[8] == 'a'
        && "JsonContained"@[9] == 'i' && "JsonContained"@[10] == 'n'
        && "JsonContained"@[11] == 'e' && "JsonContained"@[12] == 'd');
    assert("JsonHasKey"@.len() == 10);
    assert("JsonHasKey"@[0] == 'J' && "JsonHasKey"@[1] == 's' && "JsonHasKey"@[2] == 'o'
        && "JsonHasKey"@[3] == 'n' && "JsonHasKey"@[4] == 'H' && "JsonHasKey"@[5] == 'a'
        && "JsonHasKey"@[6] == 's' && "JsonHasKey"@[7] == 'K' && "JsonHasKey"@[8] == 'e'
        && "JsonHasKey"@[9] == 'y');
    assert("JsonHasAnyKey"@.len() == 13);
    assert("JsonHasAnyKey"@[0] == 'J' && "JsonHasAnyKey"@[1] == 's' && "JsonHasAnyKey"@[2] == 'o'
        && "JsonHasAnyKey"@[3] == 'n' && "JsonHasAnyKey"@[4] == 'H' && "JsonHasAnyKey"@[5] == 'a'
        && "JsonHasAnyKey"@[6] == 's' && "JsonHasAnyKey"@[7] == 'A' && "JsonHasAnyKey"@[8] == 'n'
        && "JsonHasAnyKey"@[9] == 'y' && "JsonHasAnyKey"@[10] == 'K'
        && "JsonHasAnyKey"@[11] == 'e' && "JsonHasAnyKey"@[12] == 'y');
    assert("JsonHasAllKeys"@.len() == 14);
    assert("JsonHasAllKeys"@[0] == 'J' && "JsonHasAllKeys"@[1] == 's'
        && "JsonHasAllKeys"@[2] == 'o' && "JsonHasAllKeys"@[3] == 'n'
        && "JsonHasAllKeys"@[4] == 'H' && "JsonHasAllKeys"@[5] == 'a'
        && "JsonHasAllKeys"@[6] == 's' && "JsonHasAllKeys"@[7] == 'A'
        && "JsonHasAllKeys"@[8] == 'l' && "JsonHasAllKeys"@[9] == 'l'
        && "JsonHasAllKeys"@[10] == 'K' && "JsonHasAllKeys"@[11] == 'e'
        && "JsonHasAllKeys"@[12] == 'y' && "JsonHasAllKeys"@[13] == 's');
    assert("Overlap"@.len() == 7);
    assert("Overlap"@[0] == 'O' && "Overlap"@[1] == 'v' && "Overlap"@[2] == 'e'
        && "Overlap"@[3] == 'r' && "Overlap"@[4] == 'l' && "Overlap"@[5] == 'a'
        && "Overlap"@[6] == 'p');
    match x {
        BinaryOp::Add => {
            assert(binary_op_named("Add"@) == 0);
        },
        BinaryOp::Sub => {
            assert(binary_op_named("Sub"@) == 1);
        },
        BinaryOp::Mul => {
            assert(binary_op_named("Mul"@) == 2);
        },
        BinaryOp::Div => {
            assert(binary_op_named("Div"@) == 3);
        },
        BinaryOp::Mod => {
            assert(binary_op_named("Mod"@) == 4);
        },
        BinaryOp::Pow => {
            assert(binary_op_named("Pow"@) == 5);
        },
        BinaryOp::Concat => {
            assert(binary_op_named("Concat"@) == 6);
        },
        BinaryOp::Eq => {
            assert(binary_op_named("Eq"@) == 7);
        },
        BinaryOp::NotEq => {
            assert(binary_op_named("NotEq"@) == 8);
        },
        BinaryOp::Lt => {
            assert(binary_op_named("Lt"@) == 9);
        },
        BinaryOp::LtEq => {
            assert(binary_op_named("LtEq"@) == 10);
        },
        BinaryOp::Gt => {
            assert(binary_op_named("Gt"@) == 11);
        },
        BinaryOp::GtEq => {
            assert(binary_op_named("GtEq"@) == 12);
        },
        BinaryOp::And => {
            assert(binary_op_named("And"@) == 13);
        },
        BinaryOp::Or => {
            assert(binary_op_named("Or"@) == 14);
        },
        BinaryOp::Like => {
            assert(binary_op_named("Like"@) == 15);
        },
        BinaryOp::NotLike => {
            assert(binary_op_named("NotLike"@) == 16);
        },
        BinaryOp::Ilike => {
            assert(binary_op_named("Ilike"@) == 17);
        },
        BinaryOp::NotIlike => {
            assert(binary_op_named("NotIlike"@) == 18);
        },
        BinaryOp::RegexMatch => {
            assert(binary_op_named("RegexMatch"@) == 19);
        },
        BinaryOp::RegexIMatch => {
            assert(binary_op_named("RegexIMatch"@) == 20);
        },
        BinaryOp::RegexNotMatch => {
            assert(binary_op_named("RegexNotMatch"@) == 21);
        },
        BinaryOp::RegexNotIMatch => {
            assert(binary_op_named("RegexNotIMatch"@) == 22);
        },
        BinaryOp::BitAnd => {
            assert(binary_op_named("BitAnd"@) == 23);
        },
        BinaryOp::BitOr => {
            assert(binary_op_named("BitOr"@) == 24);
        },
        BinaryOp::BitXor => {
            assert(binary_op_named("BitXor"@) == 25);
        },
        BinaryOp::ShiftLeft => {
            assert(binary_op_named("ShiftLeft"@) == 26);
        },
        BinaryOp::ShiftRight => {
            assert(binary_op_named("ShiftRight"@) == 27);
        },
        BinaryOp::JsonGet => {
            assert(binary_op_named("JsonGet"@) == 28);
        },
        BinaryOp::JsonGetText => {
            assert(binary_op_named("JsonGetText"@) == 29);
        },
        BinaryOp::JsonGetPath => {
            assert(binary_op_named("JsonGetPath"@) == 30);
        },
        BinaryOp::JsonGetPathText => {
            assert(binary_op_named("JsonGetPathText"@) == 31);
        },
        BinaryOp::JsonContains => {
            assert(binary_op_named("JsonContains"@) == 32);
        },
        BinaryOp::JsonContained => {
            assert(binary_op_named("JsonContained"@) == 33);
        },
        BinaryOp::JsonHasKey => {
            assert(binary_op_named("JsonHasKey"@) == 34);
        },
        BinaryOp::JsonHasAnyKey => {
            assert(binary_op_named("JsonHasAnyKey"@) == 35);
        },
        BinaryOp::JsonHasAllKeys => {
            assert(binary_op_named("JsonHasAllKeys"@) == 36);
        },
        BinaryOp::Overlap => {
            assert(binary_op_named("Overlap"@) == 37);
        },
    }
}

proof fn binary_op_decodes(x: BinaryOp, y: BinaryOp, s: Seq<char>, t: Seq<char>)
    requires
        ast_text::binary_op_put(x, s) == ast_text::binary_op_put(y, t),
        stops(s),
        stops(t),
    ensures
        x == y,
        s == t,
{
    binary_op_tags_are_words(x);
    binary_op_tags_are_words(y);
    words_split(ast_text::binary_op_tag(x), s, ast_text::binary_op_tag(y), t);
}

spec fn sort_direction_variant(x: SortDirection) -> int {
    match x {
        SortDirection::Asc => 0,
        SortDirection::Desc => 1,
    }
}

spec fn sort_direction_named(tag: Seq<char>) -> int {
    if tag == "Asc"@ {
        0
    } else {
        1
    }
}

#[verifier::rlimit(40)]
proof fn sort_direction_tags_are_words(x: SortDirection)
    ensures
        word(ast_text::sort_direction_tag(x)),
        sort_direction_named(ast_text::sort_direction_tag(x)) == sort_direction_variant(x),
{
    reveal_strlit("Asc");
    reveal_strlit("Desc");
    assert("Asc"@.len() == 3);
    assert("Asc"@[0] == 'A' && "Asc"@[1] == 's' && "Asc"@[2] == 'c');
    assert("Desc"@.len() == 4);
    assert("Desc"@[0] == 'D' && "Desc"@[1] == 'e' && "Desc"@[2] == 's' && "Desc"@[3] == 'c');
}

proof fn sort_direction_decodes(x: SortDirection, y: SortDirection, s: Seq<char>, t: Seq<char>)
    requires
        ast_text::sort_direction_put(x, s) == ast_text::sort_direction_put(y, t),
        stops(s),
        stops(t),
    ensures
        x == y,
        s == t,
{
    sort_direction_tags_are_words(x);
    sort_direction_tags_are_words(y);
    words_split(ast_text::sort_direction_tag(x), s, ast_text::sort_direction_tag(y), t);
}

spec fn nulls_order_variant(x: NullsOrder) -> int {
    match x {
        NullsOrder::First => 0,
        NullsOrder::Last => 1,
        NullsOrder::Default => 2,
    }
}

spec fn nulls_order_named(tag: Seq<char>) -> int {
    if tag == "First"@ {
        0
    } else if tag == "Last"@ {
        1
    } else {
        2
    }
}

#[verifier::rlimit(40)]
proof fn nulls_order_tags_are_words(x: NullsOrder)
    ensures
        word(ast_text::nulls_order_tag(x)),
        nulls_order_named(ast_text::nulls_order_tag(x)) == nulls_order_variant(x),
{
    reveal_strlit("First");
    reveal_strlit("Last");
    reveal_strlit("Default");
    assert("First"@.len() == 5);
    assert("First"@[0] == 'F' && "First"@[1] == 'i' && "First"@[2] == 'r' && "First"@[3] == 's'
        && "First"@[4] == 't');
    assert("Last"@.len() == 4);
    assert("Last"@[0] == 'L' && "Last"@[1] == 'a' && "Last"@[2] == 's' && "Last"@[3] == 't');
    assert("Default"@.len() == 7);
    assert("Default"@[0] == 'D' && "Default"@[1] == 'e' && "Default"@[2] == 'f'
        && "Default"@[3] == 'a' && "Default"@[4] == 'u' && "Default"@[5] == 'l'
        && "Default"@[6] == 't');
}

proof fn nulls_order_decodes(x: NullsOrder, y: NullsOrder, s: Seq<char>, t: Seq<char>)
    requires
        ast_text::nulls_order_put(x, s) == ast_text::nulls_order_put(y, t),
        stops(s),
        stops(t),
    ensures
        x == y,
        s == t,
{
    nulls_order_tags_are_words(x);
    nulls_order_tags_are_words(y);
    words_split(ast_text::nulls_order_tag(x), s, ast_text::nulls_order_tag(y), t);
}

spec fn join_op_variant(x: JoinOp) -> int {
    match x {
        JoinOp::Inner => 0,
        JoinOp::LeftOuter => 1,
        JoinOp::RightOuter => 2,
        JoinOp::FullOuter => 3,
        JoinOp::Cross => 4,
    }
}

spec fn join_op_named(tag: Seq<char>) -> int {
    if tag == "Inner"@ {
        0
    } else if tag == "LeftOuter"@ {
        1
    } else if tag == "RightOuter"@ {
        2
    } else if tag == "FullOuter"@ {
        3
    } else {
        4
    }
}

#[verifier::rlimit(40)]
proof fn join_op_tags_are_words(x: JoinOp)
    ensures
        word(ast_text::join_op_tag(x)),
        join_op_named(ast_text::join_op_tag(x)) == join_op_variant(x),
{
    reveal_strlit("Inner");
    reveal_strlit("LeftOuter");
    reveal_strlit("RightOuter");
    reveal_strlit("FullOuter");
    reveal_strlit("Cross");
    assert("Inner"@.len() == 5);
    assert("Inner"@[0] == 'I' && "Inner"@[1] == 'n' && "Inner"@[2] == 'n' && "Inner"@[3] == 'e'
        && "Inner"@[4] == 'r');
    assert("LeftOuter"@.len() == 9);
    assert("LeftOuter"@[0] == 'L' && "LeftOuter"@[1] == 'e' && "LeftOuter"@[2] == 'f'
        && "LeftOuter"@[3] == 't' && "LeftOuter"@[4] == 'O' && "LeftOuter"@[5] == 'u'
        && "LeftOuter"@[6] == 't' && "LeftOuter"@[7] == 'e' && "LeftOuter"@[8] == 'r');
    assert("RightOuter"@.len() == 10);
    assert("RightOuter"@[0] == 'R' && "RightOuter"@[1] == 'i' && "RightOuter"@[2] == 'g'
        && "RightOuter"@[3] == 'h' && "RightOuter"@[4] == 't' && "RightOuter"@[5] == 'O'
        && "RightOuter"@[6] == 'u' && "RightOuter"@[7] == 't' && "RightOuter"@[8] == 'e'
        && "RightOuter"@[9] == 'r');
    assert("FullOuter"@.len() == 9);
    assert("FullOuter"@[0] == 'F' && "FullOuter"@[1] == 'u' && "FullOuter"@[2] == 'l'
        && "FullOuter"@[3] == 'l' && "FullOuter"@[4] == 'O' && "FullOuter"@[5] == 'u'
        && "FullOuter"@[6] == 't' && "FullOuter"@[7] == 'e' && "FullOuter"@[8] == 'r');
    assert("Cross"@.len() == 5);
    assert("Cross"@[0] == 'C' && "Cross"@[1] == 'r' && "Cross"@[2] == 'o' && "Cross"@[3] == 's'
        && "Cross"@[4] == 's');
}

proof fn join_op_decodes(x: JoinOp, y: JoinOp, s: Seq<char>, t: Seq<char>)
    requires
        ast_text::join_op_put(x, s) == ast_text::join_op_put(y, t),
        stops(s),
        stops(t),
    ensures
        x == y,
        s == t,
{
    join_op_tags_are_words(x);
    join_op_tags_are_words(y);
    words_split(ast_text::join_op_tag(x), s, ast_text::join_op_tag(y), t);
}

spec fn set_op_variant(x: SetOp) -> int {
    match x {
        SetOp::Union => 0,
        SetOp::Intersect => 1,
        SetOp::Except => 2,
    }
}

spec fn set_op_named(tag: Seq<char>) -> int {
    if tag == "Union"@ {
        0
    } else if tag == "Intersect"@ {
        1
    } else {
        2
    }
}

#[verifier::rlimit(40)]
proof fn set_op_tags_are_words(x: SetOp)
    ensures
        word(ast_text::set_op_tag(x)),
        set_op_named(ast_text::set_op_tag(x)) == set_op_variant(x),
{
    reveal_strlit("Union");
    reveal_strlit("Intersect");
    reveal_strlit("Except");
    assert("Union"@.len() == 5);
    assert("Union"@[0] == 'U' && "Union"@[1] == 'n' && "Union"@[2] == 'i' && "Union"@[3] == 'o'
        && "Union"@[4] == 'n');
    assert("Intersect"@.len() == 9);
    assert("Intersect"@[0] == 'I' && "Intersect"@[1] == 'n' && "Intersect"@[2] == 't'
        && "Intersect"@[3] == 'e' && "Intersect"@[4] == 'r' && "Intersect"@[5] == 's'
        && "Intersect"@[6] == 'e' && "Intersect"@[7] == 'c' && "Intersect"@[8] == 't');
    assert("Except"@.len() == 6);
    assert("Except"@[0] == 'E' && "Except"@[1] == 'x' && "Except"@[2] == 'c'
        && "Except"@[3] == 'e' && "Except"@[4] == 'p' && "Except"@[5] == 't');
}

proof fn set_op_decodes(x: SetOp, y: SetOp, s: Seq<char>, t: Seq<char>)
    requires
        ast_text::set_op_put(x, s) == ast_text::set_op_put(y, t),
        stops(s),
        stops(t),
    ensures
        x == y,
        s == t,
{
    set_op_tags_are_words(x);
    set_op_tags_are_words(y);
    words_split(ast_text::set_op_tag(x), s, ast_text::set_op_tag(y), t);
}

spec fn set_quantifier_variant(x: SetQuantifier) -> int {
    match x {
        SetQuantifier::All => 0,
        SetQuantifier::Distinct => 1,
    }
}

spec fn set_quantifier_named(tag: Seq<char>) -> int {
    if tag == "All"@ {
        0
    } else {
        1
    }
}

#[verifier::rlimit(40)]
proof fn set_quantifier_tags_are_words(x: SetQuantifier)
    ensures
        word(ast_text::set_quantifier_tag(x)),
        set_quantifier_named(ast_text::set_quantifier_tag(x)) == set_quantifier_variant(x),
{
    reveal_strlit("All");
    reveal_strlit("Distinct");
    assert("All"@.len() == 3);
    assert("All"@[0] == 'A' && "All"@[1] == 'l' && "All"@[2] == 'l');
    assert("Distinct"@.len() == 8);
    assert("Distinct"@[0] == 'D' && "Distinct"@[1] == 'i' && "Distinct"@[2] == 's'
        && "Distinct"@[3] == 't' && "Distinct"@[4] == 'i' && "Distinct"@[5] == 'n'
        && "Distinct"@[6] == 'c' && "Distinct"@[7] == 't');
}

proof fn set_quantifier_decodes(x: SetQuantifier, y: SetQuantifier, s: Seq<char>, t: Seq<char>)
    requires
        ast_text::set_quantifier_put(x, s) == ast_text::set_quantifier_put(y, t),
        stops(s),
        stops(t),
    ensures
        x == y,
        s == t,
{
    set_quantifier_tags_are_words(x);
    set_quantifier_tags_are_words(y);
    words_split(ast_text::set_quantifier_tag(x), s, ast_text::set_quantifier_tag(y), t);
}

/// Whether two names are alike.
pub open spec fn same_identifier(x: Identifier, y: Identifier) -> bool {
    &&& x.value@ == y.value@
}

/// Whether two qualified names are alike.
pub open spec fn same_object_name(x: ObjectName, y: ObjectName) -> bool {
    &&& same_identifier_list(x.parts@, y.parts@)
}

/// Whether two sort keys are alike.
pub open spec fn same_order_item(x: OrderItem, y: OrderItem) -> bool
    decreases x,
{
    &&& same_expr(x.expr, y.expr)
    &&& x.direction == y.direction
    &&& x.nulls == y.nulls
}

/// Whether two windows are alike.
pub open spec fn same_window_spec(x: WindowSpec, y: WindowSpec) -> bool
    decreases x,
{
    &&& same_expr_list(x.partition_by@, y.partition_by@)
    &&& same_order_item_list(x.order_by@, y.order_by@)
}

/// Whether two common table expressions are alike.
pub open spec fn same_cte_def(x: CteDef, y: CteDef) -> bool
    decreases x,
{
    &&& same_identifier(x.name, y.name)
    &&& same_identifier_list(x.column_aliases@, y.column_aliases@)
    &&& x.recursive == y.recursive
    &&& same_select_stmt(*x.query, *y.query)
}

/// Whether two set operations are alike.
pub open spec fn same_set_op_tail(x: SetOpTail, y: SetOpTail) -> bool
    decreases x,
{
    &&& x.op == y.op
    &&& x.quantifier == y.quantifier
    &&& same_select_stmt(*x.right, *y.right)
}

/// Whether two `SELECT` statements are alike.
pub open spec fn same_select_stmt(x: SelectStmt, y: SelectStmt) -> bool
    decreases x,
{
    &&& same_cte_def_list(x.ctes@, y.ctes@)
    &&& same_distinct(x.distinct, y.distinct)
    &&& same_select_item_list(x.projection@, y.projection@)
    &&& same_table_ref_list(x.from@, y.from@)
    &&& same_optional_expr(x.where_clause, y.where_clause)
    &&& same_expr_list(x.group_by@, y.group_by@)
    &&& same_optional_expr(x.having, y.having)
    &&& same_set_op_tail_list(x.set_ops@, y.set_ops@)
    &&& same_order_item_list(x.order_by@, y.order_by@)
    &&& same_optional_expr(x.limit, y.limit)
    &&& same_optional_expr(x.offset, y.offset)
}

/// Whether two literals are alike. Of a float literal the text counts.
pub open spec fn same_literal(x: Literal, y: Literal) -> bool {
    match (x, y) {
        (Literal::Null, Literal::Null) => true,
        (Literal::Bool { value }, Literal::Bool { value: value2 }) => value == value2,
        (Literal::Integer { text }, Literal::Integer { text: text2 }) => text@ == text2@,
        (Literal::Float { text, .. }, Literal::Float { text: text2, .. }) => text@ == text2@,
        (Literal::Text { value }, Literal::Text { value: value2 }) => value@ == value2@,
        (
            Literal::Typed { ty, value, unit },
            Literal::Typed { ty: ty2, value: value2, unit: unit2 },
        ) => {
            &&& ty@ == ty2@
            &&& value@ == value2@
            &&& same_optional_quoted(unit, unit2)
        },
        _ => false,
    }
}

/// Whether two expressions are alike.
pub open spec fn same_expr(x: Expr, y: Expr) -> bool
    decreases x,
{
    match (x, y) {
        (Expr::Literal(x0), Expr::Literal(y0)) => same_literal(x0, y0),
        (Expr::Column { name }, Expr::Column { name: name2 }) => same_object_name(name, name2),
        (Expr::Parameter { index }, Expr::Parameter { index: index2 }) => index == index2,
        (Expr::Paren { expr }, Expr::Paren { expr: expr2 }) => same_expr(*expr, *expr2),
        (Expr::Unary { op, expr }, Expr::Unary { op: op2, expr: expr2 }) => {
            &&& op == op2
            &&& same_expr(*expr, *expr2)
        },
        (
            Expr::Binary { op, left, right },
            Expr::Binary { op: op2, left: left2, right: right2 },
        ) => {
            &&& op == op2
            &&& same_expr(*left, *left2)
            &&& same_expr(*right, *right2)
        },
        (Expr::IsNull { expr, negated }, Expr::IsNull { expr: expr2, negated: negated2 }) => {
            &&& same_expr(*expr, *expr2)
            &&& negated == negated2
        },
        (
            Expr::Call { name, args, distinct, within_group, over },
            Expr::Call {
                name: name2,
                args: args2,
                distinct: distinct2,
                within_group: within_group2,
                over: over2,
            },
        ) => {
            &&& same_object_name(name, name2)
            &&& same_expr_list(args@, args2@)
            &&& distinct == distinct2
            &&& same_optional_order_item_list(within_group, within_group2)
            &&& same_optional_window_spec(over, over2)
        },
        (Expr::Cast { expr, target }, Expr::Cast { expr: expr2, target: target2 }) => {
            &&& same_expr(*expr, *expr2)
            &&& same_identifier(target, target2)
        },
        (
            Expr::PostfixCast { expr, target },
            Expr::PostfixCast { expr: expr2, target: target2 },
        ) => {
            &&& same_expr(*expr, *expr2)
            &&& same_identifier(target, target2)
        },
        (Expr::Subquery { select }, Expr::Subquery { select: select2 }) => {
            same_select_stmt(*select, *select2)
        },
        (Expr::Exists { select, negated }, Expr::Exists { select: select2, negated: negated2 }) => {
            &&& same_select_stmt(*select, *select2)
            &&& negated == negated2
        },
        (
            Expr::InSubquery { expr, select, negated },
            Expr::InSubquery { expr: expr2, select: select2, negated: negated2 },
        ) => {
            &&& same_expr(*expr, *expr2)
            &&& same_select_stmt(*select, *select2)
            &&& negated == negated2
        },
        (Expr::Any { expr, op, select }, Expr::Any { expr: expr2, op: op2, select: select2 }) => {
            &&& same_expr(*expr, *expr2)
            &&& op == op2
            &&& same_select_stmt(*select, *select2)
        },
        (
            Expr::AnyArray { expr, op, array },
            Expr::AnyArray { expr: expr2, op: op2, array: array2 },
        ) => {
            &&& same_expr(*expr, *expr2)
            &&& op == op2
            &&& same_expr(*array, *array2)
        },
        (Expr::All { expr, op, select }, Expr::All { expr: expr2, op: op2, select: select2 }) => {
            &&& same_expr(*expr, *expr2)
            &&& op == op2
            &&& same_select_stmt(*select, *select2)
        },
        (
            Expr::Between { expr, low, high, negated, symmetric },
            Expr::Between {
                expr: expr2,
                low: low2,
                high: high2,
                negated: negated2,
                symmetric: symmetric2,
            },
        ) => {
            &&& same_expr(*expr, *expr2)
            &&& same_expr(*low, *low2)
            &&& same_expr(*high, *high2)
            &&& negated == negated2
            &&& symmetric == symmetric2
        },
        (
            Expr::InList { expr, items, negated },
            Expr::InList { expr: expr2, items: items2, negated: negated2 },
        ) => {
            &&& same_expr(*expr, *expr2)
            &&& same_expr_list(items@, items2@)
            &&& negated == negated2
        },
        (
            Expr::Case { operand, branches, else_expr },
            Expr::Case { operand: operand2, branches: branches2, else_expr: else_expr2 },
        ) => {
            &&& same_optional_boxed_expr(operand, operand2)
            &&& same_branch_list(branches@, branches2@)
            &&& same_optional_boxed_expr(else_expr, else_expr2)
        },
        (Expr::Coalesce { args }, Expr::Coalesce { args: args2 }) => same_expr_list(args@, args2@),
        (Expr::NullIf { a, b }, Expr::NullIf { a: a2, b: b2 }) => {
            &&& same_expr(*a, *a2)
            &&& same_expr(*b, *b2)
        },
        (Expr::Greatest { args }, Expr::Greatest { args: args2 }) => same_expr_list(args@, args2@),
        (Expr::Least { args }, Expr::Least { args: args2 }) => same_expr_list(args@, args2@),
        (
            Expr::IsBoolean { expr, value, is_unknown, negated },
            Expr::IsBoolean {
                expr: expr2,
                value: value2,
                is_unknown: is_unknown2,
                negated: negated2,
            },
        ) => {
            &&& same_expr(*expr, *expr2)
            &&& value == value2
            &&& is_unknown == is_unknown2
            &&& negated == negated2
        },
        (
            Expr::IsDistinctFrom { left, right, negated },
            Expr::IsDistinctFrom { left: left2, right: right2, negated: negated2 },
        ) => {
            &&& same_expr(*left, *left2)
            &&& same_expr(*right, *right2)
            &&& negated == negated2
        },
        (Expr::Row { fields }, Expr::Row { fields: fields2 }) => same_expr_list(fields@, fields2@),
        (Expr::ArrayLiteral { elements }, Expr::ArrayLiteral { elements: elements2 }) => {
            same_expr_list(elements@, elements2@)
        },
        (
            Expr::ArraySubscript { expr, index },
            Expr::ArraySubscript { expr: expr2, index: index2 },
        ) => {
            &&& same_expr(*expr, *expr2)
            &&& same_expr(*index, *index2)
        },
        (
            Expr::ArraySlice { expr, lower, upper },
            Expr::ArraySlice { expr: expr2, lower: lower2, upper: upper2 },
        ) => {
            &&& same_expr(*expr, *expr2)
            &&& same_optional_boxed_expr(lower, lower2)
            &&& same_optional_boxed_expr(upper, upper2)
        },
        (
            Expr::Collate { expr, collation },
            Expr::Collate { expr: expr2, collation: collation2 },
        ) => {
            &&& same_expr(*expr, *expr2)
            &&& same_object_name(collation, collation2)
        },
        (Expr::AtTimeZone { expr, zone }, Expr::AtTimeZone { expr: expr2, zone: zone2 }) => {
            &&& same_expr(*expr, *expr2)
            &&& same_expr(*zone, *zone2)
        },
        (Expr::Default, Expr::Default) => true,
        _ => false,
    }
}

/// Whether two items of a projection are alike.
pub open spec fn same_select_item(x: SelectItem, y: SelectItem) -> bool
    decreases x,
{
    match (x, y) {
        (SelectItem::Wildcard, SelectItem::Wildcard) => true,
        (
            SelectItem::QualifiedWildcard { qualifier },
            SelectItem::QualifiedWildcard { qualifier: qualifier2 },
        ) => same_identifier(qualifier, qualifier2),
        (SelectItem::Expr { expr, alias }, SelectItem::Expr { expr: expr2, alias: alias2 }) => {
            &&& same_expr(expr, expr2)
            &&& same_optional_identifier(alias, alias2)
        },
        _ => false,
    }
}

/// Whether two `DISTINCT` clauses are alike.
pub open spec fn same_distinct(x: Distinct, y: Distinct) -> bool
    decreases x,
{
    match (x, y) {
        (Distinct::Absent, Distinct::Absent) => true,
        (Distinct::All, Distinct::All) => true,
        (Distinct::Distinct, Distinct::Distinct) => true,
        (Distinct::On(x0), Distinct::On(y0)) => same_expr_list(x0@, y0@),
        _ => false,
    }
}

/// Whether two join conditions are alike.
pub open spec fn same_join_condition(x: JoinCondition, y: JoinCondition) -> bool
    decreases x,
{
    match (x, y) {
        (JoinCondition::Absent, JoinCondition::Absent) => true,
        (JoinCondition::On(x0), JoinCondition::On(y0)) => same_expr(x0, y0),
        (JoinCondition::Using(x0), JoinCondition::Using(y0)) => same_identifier_list(x0@, y0@),
        _ => false,
    }
}

/// Whether two items of a `FROM` list are alike.
pub open spec fn same_table_ref(x: TableRef, y: TableRef) -> bool
    decreases x,
{
    match (x, y) {
        (TableRef::Named { name, alias }, TableRef::Named { name: name2, alias: alias2 }) => {
            &&& same_object_name(name, name2)
            &&& same_optional_identifier(alias, alias2)
        },
        (
            TableRef::Subquery { select, alias, column_aliases },
            TableRef::Subquery { select: select2, alias: alias2, column_aliases: column_aliases2 },
        ) => {
            &&& same_select_stmt(*select, *select2)
            &&& same_identifier(alias, alias2)
            &&& same_identifier_list(column_aliases@, column_aliases2@)
        },
        (
            TableRef::Join { left, op, right, condition },
            TableRef::Join { left: left2, op: op2, right: right2, condition: condition2 },
        ) => {
            &&& same_table_ref(*left, *left2)
            &&& op == op2
            &&& same_table_ref(*right, *right2)
            &&& same_join_condition(condition, condition2)
        },
        _ => false,
    }
}

/// Whether two branches of a `CASE` are alike.
pub open spec fn same_branch(x: (Expr, Expr), y: (Expr, Expr)) -> bool
    decreases x,
{
    &&& same_expr(x.0, y.0)
    &&& same_expr(x.1, y.1)
}

/// Whether two lists of branches of a `CASE` are alike.
pub open spec fn same_branch_list(x: Seq<(Expr, Expr)>, y: Seq<(Expr, Expr)>) -> bool
    decreases x,
{
    &&& x.len() == y.len()
    &&& forall|i: int| 0 <= i < x.len() ==> same_branch(#[trigger] x[i], y[i])
}

/// Whether two lists of common table expressions are alike.
pub open spec fn same_cte_def_list(x: Seq<CteDef>, y: Seq<CteDef>) -> bool
    decreases x,
{
    &&& x.len() == y.len()
    &&& forall|i: int| 0 <= i < x.len() ==> same_cte_def(#[trigger] x[i], y[i])
}

/// Whether two lists of expressions are alike.
pub open spec fn same_expr_list(x: Seq<Expr>, y: Seq<Expr>) -> bool
    decreases x,
{
    &&& x.len() == y.len()
    &&& forall|i: int| 0 <= i < x.len() ==> same_expr(#[trigger] x[i], y[i])
}

/// Whether two lists of names are alike.
pub open spec fn same_identifier_list(x: Seq<Identifier>, y: Seq<Identifier>) -> bool {
    &&& x.len() == y.len()
    &&& forall|i: int| 0 <= i < x.len() ==> same_identifier(#[trigger] x[i], y[i])
}

/// Whether two lists of sort keys are alike.
pub open spec fn same_order_item_list(x: Seq<OrderItem>, y: Seq<OrderItem>) -> bool
    decreases x,
{
    &&& x.len() == y.len()
    &&& forall|i: int| 0 <= i < x.len() ==> same_order_item(#[trigger] x[i], y[i])
}

/// Whether two lists of items of a projection are alike.
pub open spec fn same_select_item_list(x: Seq<SelectItem>, y: Seq<SelectItem>) -> bool
    decreases x,
{
    &&& x.len() == y.len()
    &&& forall|i: int| 0 <= i < x.len() ==> same_select_item(#[trigger] x[i], y[i])
}

/// Whether two lists of set operations are alike.
pub open spec fn same_set_op_tail_list(x: Seq<SetOpTail>, y: Seq<SetOpTail>) -> bool
    decreases x,
{
    &&& x.len() == y.len()
    &&& forall|i: int| 0 <= i < x.len() ==> same_set_op_tail(#[trigger] x[i], y[i])
}

/// Whether two lists of items of a `FROM` list are alike.
pub open spec fn same_table_ref_list(x: Seq<TableRef>, y: Seq<TableRef>) -> bool
    decreases x,
{
    &&& x.len() == y.len()
    &&& forall|i: int| 0 <= i < x.len() ==> same_table_ref(#[trigger] x[i], y[i])
}

/// Whether two optional expressions are alike.
pub open spec fn same_optional_expr(x: Option<Expr>, y: Option<Expr>) -> bool
    decreases x,
{
    match (x, y) {
        (Some(a), Some(b)) => same_expr(a, b),
        (None, None) => true,
        _ => false,
    }
}

/// Whether two optional names are alike.
pub open spec fn same_optional_identifier(x: Option<Identifier>, y: Option<Identifier>) -> bool {
    match (x, y) {
        (Some(a), Some(b)) => same_identifier(a, b),
        (None, None) => true,
        _ => false,
    }
}

/// Whether two optional windows are alike.
pub open spec fn same_optional_window_spec(x: Option<WindowSpec>, y: Option<WindowSpec>) -> bool
    decreases x,
{
    match (x, y) {
        (Some(a), Some(b)) => same_window_spec(a, b),
        (None, None) => true,
        _ => false,
    }
}

/// Whether two optional expressions are alike.
pub open spec fn same_optional_boxed_expr(x: Option<Box<Expr>>, y: Option<Box<Expr>>) -> bool
    decreases x,
{
    match (x, y) {
        (Some(a), Some(b)) => same_expr(*a, *b),
        (None, None) => true,
        _ => false,
    }
}

/// Whether two optional texts are alike.
pub open spec fn same_optional_quoted(x: Option<String>, y: Option<String>) -> bool {
    match (x, y) {
        (Some(a), Some(b)) => a@ == b@,
        (None, None) => true,
        _ => false,
    }
}

/// Whether two optional lists of sort keys are alike.
pub open spec fn same_optional_order_item_list(
    x: Option<Vec<OrderItem>>,
    y: Option<Vec<OrderItem>>,
) -> bool
    decreases x,
{
    match (x, y) {
        (Some(a), Some(b)) => same_order_item_list(a@, b@),
        (None, None) => true,
        _ => false,
    }
}

/// The text of a sort item before a rest, held closed; the functions below hold
/// the texts of the other parts of a query in the same way, and each is opened by
/// the lemma that names what it unfolds to.
#[verifier::opaque]
spec fn order_item_sealed(x: OrderItem, rest: Seq<char>) -> Seq<char> {
    ast_text::order_item_put(x, rest)
}

#[verifier::opaque]
spec fn window_spec_sealed(x: WindowSpec, rest: Seq<char>) -> Seq<char> {
    ast_text::window_spec_put(x, rest)
}

#[verifier::opaque]
spec fn cte_def_sealed(x: CteDef, rest: Seq<char>) -> Seq<char> {
    ast_text::cte_def_put(x, rest)
}

#[verifier::opaque]
spec fn set_op_tail_sealed(x: SetOpTail, rest: Seq<char>) -> Seq<char> {
    ast_text::set_op_tail_put(x, rest)
}

#[verifier::opaque]
spec fn select_stmt_sealed(x: SelectStmt, rest: Seq<char>) -> Seq<char> {
    ast_text::select_stmt_put(x, rest)
}

#[verifier::opaque]
spec fn expr_sealed(x: Expr, rest: Seq<char>) -> Seq<char> {
    ast_text::expr_put(x, rest)
}

#[verifier::opaque]
spec fn select_item_sealed(x: SelectItem, rest: Seq<char>) -> Seq<char> {
    ast_text::select_item_put(x, rest)
}

#[verifier::opaque]
spec fn distinct_sealed(x: Distinct, rest: Seq<char>) -> Seq<char> {
    ast_text::distinct_put(x, rest)
}

#[verifier::opaque]
spec fn join_condition_sealed(x: JoinCondition, rest: Seq<char>) -> Seq<char> {
    ast_text::join_condition_put(x, rest)
}

#[verifier::opaque]
spec fn table_ref_sealed(x: TableRef, rest: Seq<char>) -> Seq<char> {
    ast_text::table_ref_put(x, rest)
}

#[verifier::opaque]
spec fn branch_sealed(x: (Expr, Expr), rest: Seq<char>) -> Seq<char> {
    ast_text::branch_put(x, rest)
}

#[verifier::opaque]
spec fn branch_list_sealed(s: Seq<(Expr, Expr)>, rest: Seq<char>) -> Seq<char> {
    ast_text::branch_list_put(s, rest)
}

#[verifier::opaque]
spec fn branch_list_from_sealed(s: Seq<(Expr, Expr)>, i: int, rest: Seq<char>) -> Seq<char> {
    ast_text::branch_list_from(s, i, rest)
}

#[verifier::opaque]
spec fn cte_def_list_sealed(s: Seq<CteDef>, rest: Seq<char>) -> Seq<char> {
    ast_text::cte_def_list_put(s, rest)
}

#[verifier::opaque]
spec fn cte_def_list_from_sealed(s: Seq<CteDef>, i: int, rest: Seq<char>) -> Seq<char> {
    ast_text::cte_def_list_from(s, i, rest)
}

#[verifier::opaque]
spec fn expr_list_sealed(s: Seq<Expr>, rest: Seq<char>) -> Seq<char> {
    ast_text::expr_list_put(s, rest)
}

#[verifier::opaque]
spec fn expr_list_from_sealed(s: Seq<Expr>, i: int, rest: Seq<char>) -> Seq<char> {
    ast_text::expr_list_from(s, i, rest)
}

#[verifier::opaque]
spec fn order_item_list_sealed(s: Seq<OrderItem>, rest: Seq<char>) -> Seq<char> {
    ast_text::order_item_list_put(s, rest)
}

#[verifier::opaque]
spec fn order_item_list_from_sealed(s: Seq<OrderItem>, i: int, rest: Seq<char>) -> Seq<char> {
    ast_text::order_item_list_from(s, i, rest)
}

#[verifier::opaque]
spec fn select_item_list_sealed(s: Seq<SelectItem>, rest: Seq<char>) -> Seq<char> {
    ast_text::select_item_list_put(s, rest)
}

#[verifier::opaque]
spec fn select_item_list_from_sealed(s: Seq<SelectItem>, i: int, rest: Seq<char>) -> Seq<char> {
    ast_text::select_item_list_from(s, i, rest)
}

#[verifier::opaque]
spec fn set_op_tail_list_sealed(s: Seq<SetOpTail>, rest: Seq<char>) -> Seq<char> {
    ast_text::set_op_tail_list_put(s, rest)
}

#[verifier::opaque]
spec fn set_op_tail_list_from_sealed(s: Seq<SetOpTail>, i: int, rest: Seq<char>) -> Seq<char> {
    ast_text::set_op_tail_list_from(s, i, rest)
}

#[verifier::opaque]
spec fn table_ref_list_sealed(s: Seq<TableRef>, rest: Seq<char>) -> Seq<char> {
    ast_text::table_ref_list_put(s, rest)
}

#[verifier::opaque]
spec fn table_ref_list_from_sealed(s: Seq<TableRef>, i: int, rest: Seq<char>) -> Seq<char> {
    ast_text::table_ref_list_from(s, i, rest)
}

#[verifier::opaque]
spec fn optional_expr_sealed(x: Option<Expr>, rest: Seq<char>) -> Seq<char> {
    ast_text::optional_expr_put(x, rest)
}

#[verifier::opaque]
spec fn optional_window_spec_sealed(x: Option<WindowSpec>, rest: Seq<char>) -> Seq<char> {
    ast_text::optional_window_spec_put(x, rest)
}

#[verifier::opaque]
spec fn optional_boxed_expr_sealed(x: Option<Box<Expr>>, rest: Seq<char>) -> Seq<char> {
    ast_text::optional_boxed_expr_put(x, rest)
}

#[verifier::opaque]
spec fn optional_order_item_list_sealed(x: Option<Vec<OrderItem>>, rest: Seq<char>) -> Seq<char> {
    ast_text::optional_order_item_list_put(x, rest)
}

proof fn order_item_unfolds(x: OrderItem, s: Seq<char>)
    ensures
        order_item_sealed(x, s) == "OrderItem"@ + (
            " { expr: "@ + expr_sealed(
                x.expr,
                ", direction: "@ + ast_text::sort_direction_put(
                    x.direction,
                    ", nulls: "@ + ast_text::nulls_order_put(x.nulls, " }"@ + s),
                ),
            )
        ),
{
    reveal(order_item_sealed);
    reveal(expr_sealed);
}

proof fn window_spec_unfolds(x: WindowSpec, s: Seq<char>)
    ensures
        window_spec_sealed(x, s) == "WindowSpec"@ + (
            " { partition_by: "@ + expr_list_sealed(
                x.partition_by@,
                ", order_by: "@ + order_item_list_sealed(x.order_by@, " }"@ + s),
            )
        ),
{
    reveal(window_spec_sealed);
    reveal(expr_list_sealed);
    reveal(order_item_list_sealed);
}

proof fn cte_def_unfolds(x: CteDef, s: Seq<char>)
    ensures
        cte_def_sealed(x, s) == "CteDef"@ + (
            " { name: "@ + ast_text::identifier_put(
                x.name,
                ", column_aliases: "@ + ast_text::identifier_list_put(
                    x.column_aliases@,
                    ", recursive: "@ + ast_text::flag_put(
                        x.recursive,
                        ", query: "@ + select_stmt_sealed(*x.query, " }"@ + s),
                    ),
                ),
            )
        ),
{
    reveal(cte_def_sealed);
    reveal(select_stmt_sealed);
}

proof fn set_op_tail_unfolds(x: SetOpTail, s: Seq<char>)
    ensures
        set_op_tail_sealed(x, s) == "SetOpTail"@ + (
            " { op: "@ + ast_text::set_op_put(
                x.op,
                ", quantifier: "@ + ast_text::set_quantifier_put(
                    x.quantifier,
                    ", right: "@ + select_stmt_sealed(*x.right, " }"@ + s),
                ),
            )
        ),
{
    reveal(set_op_tail_sealed);
    reveal(select_stmt_sealed);
}

proof fn select_stmt_unfolds(x: SelectStmt, s: Seq<char>)
    ensures
        select_stmt_sealed(x, s) == "SelectStmt"@ + (
            " { ctes: "@ + cte_def_list_sealed(
                x.ctes@,
                ", distinct: "@ + distinct_sealed(
                    x.distinct,
                    ", projection: "@ + select_item_list_sealed(
                        x.projection@,
                        ", from: "@ + table_ref_list_sealed(
                            x.from@,
                            ", where_clause: "@ + optional_expr_sealed(
                                x.where_clause,
                                ", group_by: "@ + expr_list_sealed(
                                    x.group_by@,
                                    ", having: "@ + optional_expr_sealed(
                                        x.having,
                                        ", set_ops: "@ + set_op_tail_list_sealed(
                                            x.set_ops@,
                                            ", order_by: "@ + order_item_list_sealed(
                                                x.order_by@,
                                                ", limit: "@ + optional_expr_sealed(
                                                    x.limit,
                                                    ", offset: "@ + optional_expr_sealed(
                                                        x.offset,
                                                        " }"@ + s,
                                                    ),
                                                ),
                                            ),
                                        ),
                                    ),
                                ),
                            ),
                        ),
                    ),
                ),
            )
        ),
{
    reveal(select_stmt_sealed);
    reveal(cte_def_list_sealed);
    reveal(distinct_sealed);
    reveal(select_item_list_sealed);
    reveal(table_ref_list_sealed);
    reveal(optional_expr_sealed);
    reveal(expr_list_sealed);
    reveal(set_op_tail_list_sealed);
    reveal(order_item_list_sealed);
}

spec fn literal_after(x: Literal, rest: Seq<char>) -> Seq<char> {
    match x {
        Literal::Null => rest,
        Literal::Bool { value } => " { value: "@ + ast_text::flag_put(value, " }"@ + rest),
        Literal::Integer { text } => " { text: "@ + ast_text::quoted_put(text@, " }"@ + rest),
        Literal::Float { text, .. } => " { text: "@ + ast_text::quoted_put(text@, " }"@ + rest),
        Literal::Text { value } => " { value: "@ + ast_text::quoted_put(value@, " }"@ + rest),
        Literal::Typed { ty, value, unit } => {
            " { ty: "@ + ast_text::quoted_put(
                ty@,
                ", value: "@ + ast_text::quoted_put(
                    value@,
                    ", unit: "@ + ast_text::optional_quoted_put(unit, " }"@ + rest),
                ),
            )
        },
    }
}

proof fn literal_unfolds(x: Literal, s: Seq<char>)
    ensures
        ast_text::literal_put(x, s) == ast_text::literal_tag(x) + literal_after(x, s),
{
}

spec fn expr_after(x: Expr, rest: Seq<char>) -> Seq<char> {
    match x {
        Expr::Literal(x0) => "("@ + ast_text::literal_put(x0, ")"@ + rest),
        Expr::Column { name } => " { name: "@ + ast_text::object_name_put(name, " }"@ + rest),
        Expr::Parameter { index } => " { index: "@ + ast_text::index_put(index, " }"@ + rest),
        Expr::Paren { expr } => " { expr: "@ + expr_sealed(*expr, " }"@ + rest),
        Expr::Unary { op, expr } => {
            " { op: "@ + ast_text::unary_op_put(op, ", expr: "@ + expr_sealed(*expr, " }"@ + rest))
        },
        Expr::Binary { op, left, right } => {
            " { op: "@ + ast_text::binary_op_put(
                op,
                ", left: "@ + expr_sealed(*left, ", right: "@ + expr_sealed(*right, " }"@ + rest)),
            )
        },
        Expr::IsNull { expr, negated } => {
            " { expr: "@ + expr_sealed(
                *expr,
                ", negated: "@ + ast_text::flag_put(negated, " }"@ + rest),
            )
        },
        Expr::Call { name, args, distinct, within_group, over } => {
            " { name: "@ + ast_text::object_name_put(
                name,
                ", args: "@ + expr_list_sealed(
                    args@,
                    ", distinct: "@ + ast_text::flag_put(
                        distinct,
                        ", within_group: "@ + optional_order_item_list_sealed(
                            within_group,
                            ", over: "@ + optional_window_spec_sealed(over, " }"@ + rest),
                        ),
                    ),
                ),
            )
        },
        Expr::Cast { expr, target } => {
            " { expr: "@ + expr_sealed(
                *expr,
                ", target: "@ + ast_text::identifier_put(target, " }"@ + rest),
            )
        },
        Expr::PostfixCast { expr, target } => {
            " { expr: "@ + expr_sealed(
                *expr,
                ", target: "@ + ast_text::identifier_put(target, " }"@ + rest),
            )
        },
        Expr::Subquery { select } => " { select: "@ + select_stmt_sealed(*select, " }"@ + rest),
        Expr::Exists { select, negated } => {
            " { select: "@ + select_stmt_sealed(
                *select,
                ", negated: "@ + ast_text::flag_put(negated, " }"@ + rest),
            )
        },
        Expr::InSubquery { expr, select, negated } => {
            " { expr: "@ + expr_sealed(
                *expr,
                ", select: "@ + select_stmt_sealed(
                    *select,
                    ", negated: "@ + ast_text::flag_put(negated, " }"@ + rest),
                ),
            )
        },
        Expr::Any { expr, op, select } => {
            " { expr: "@ + expr_sealed(
                *expr,
                ", op: "@ + ast_text::binary_op_put(
                    op,
                    ", select: "@ + select_stmt_sealed(*select, " }"@ + rest),
                ),
            )
        },
        Expr::AnyArray { expr, op, array } => {
            " { expr: "@ + expr_sealed(
                *expr,
                ", op: "@ + ast_text::binary_op_put(
                    op,
                    ", array: "@ + expr_sealed(*array, " }"@ + rest),
                ),
            )
        },
        Expr::All { expr, op, select } => {
            " { expr: "@ + expr_sealed(
                *expr,
                ", op: "@ + ast_text::binary_op_put(
                    op,
                    ", select: "@ + select_stmt_sealed(*select, " }"@ + rest),
                ),
            )
        },
        Expr::Between { expr, low, high, negated, symmetric } => {
            " { expr: "@ + expr_sealed(
                *expr,
                ", low: "@ + expr_sealed(
                    *low,
                    ", high: "@ + expr_sealed(
                        *high,
                        ", negated: "@ + ast_text::flag_put(
                            negated,
                            ", symmetric: "@ + ast_text::flag_put(symmetric, " }"@ + rest),
                        ),
                    ),
                ),
            )
        },
        Expr::InList { expr, items, negated } => {
            " { expr: "@ + expr_sealed(
                *expr,
                ", items: "@ + expr_list_sealed(
                    items@,
                    ", negated: "@ + ast_text::flag_put(negated, " }"@ + rest),
                ),
            )
        },
        Expr::Case { operand, branches, else_expr } => {
            " { operand: "@ + optional_boxed_expr_sealed(
                operand,
                ", branches: "@ + branch_list_sealed(
                    branches@,
                    ", else_expr: "@ + optional_boxed_expr_sealed(else_expr, " }"@ + rest),
                ),
            )
        },
        Expr::Coalesce { args } => " { args: "@ + expr_list_sealed(args@, " }"@ + rest),
        Expr::NullIf { a, b } => {
            " { a: "@ + expr_sealed(*a, ", b: "@ + expr_sealed(*b, " }"@ + rest))
        },
        Expr::Greatest { args } => " { args: "@ + expr_list_sealed(args@, " }"@ + rest),
        Expr::Least { args } => " { args: "@ + expr_list_sealed(args@, " }"@ + rest),
        Expr::IsBoolean { expr, value, is_unknown, negated } => {
            " { expr: "@ + expr_sealed(
                *expr,
                ", value: "@ + ast_text::flag_put(
                    value,
                    ", is_unknown: "@ + ast_text::flag_put(
                        is_unknown,
                        ", negated: "@ + ast_text::flag_put(negated, " }"@ + rest),
                    ),
                ),
            )
        },
        Expr::IsDistinctFrom { left, right, negated } => {
            " { left: "@ + expr_sealed(
                *left,
                ", right: "@ + expr_sealed(
                    *right,
                    ", negated: "@ + ast_text::flag_put(negated, " }"@ + rest),
                ),
            )
        },
        Expr::Row { fields } => " { fields: "@ + expr_list_sealed(fields@, " }"@ + rest),
        Expr::ArrayLiteral { elements } => {
            " { elements: "@ + expr_list_sealed(elements@, " }"@ + rest)
        },
        Expr::ArraySubscript { expr, index } => {
            " { expr: "@ + expr_sealed(*expr, ", index: "@ + expr_sealed(*index, " }"@ + rest))
        },
        Expr::ArraySlice { expr, lower, upper } => {
            " { expr: "@ + expr_sealed(
                *expr,
                ", lower: "@ + optional_boxed_expr_sealed(
                    lower,
                    ", upper: "@ + optional_boxed_expr_sealed(upper, " }"@ + rest),
                ),
            )
        },
        Expr::Collate { expr, collation } => {
            " { expr: "@ + expr_sealed(
                *expr,
                ", collation: "@ + ast_text::object_name_put(collation, " }"@ + rest),
            )
        },
        Expr::AtTimeZone { expr, zone } => {
            " { expr: "@ + expr_sealed(*expr, ", zone: "@ + expr_sealed(*zone, " }"@ + rest))
        },
        Expr::Default => rest,
    }
}

proof fn expr_unfolds(x: Expr, s: Seq<char>)
    ensures
        expr_sealed(x, s) == ast_text::expr_tag(x) + expr_after(x, s),
{
    reveal(expr_sealed);
    reveal(expr_list_sealed);
    reveal(optional_order_item_list_sealed);
    reveal(optional_window_spec_sealed);
    reveal(select_stmt_sealed);
    reveal(optional_boxed_expr_sealed);
    reveal(branch_list_sealed);
}

spec fn select_item_after(x: SelectItem, rest: Seq<char>) -> Seq<char> {
    match x {
        SelectItem::Wildcard => rest,
        SelectItem::QualifiedWildcard { qualifier } => {
            " { qualifier: "@ + ast_text::identifier_put(qualifier, " }"@ + rest)
        },
        SelectItem::Expr { expr, alias } => {
            " { expr: "@ + expr_sealed(
                expr,
                ", alias: "@ + ast_text::optional_identifier_put(alias, " }"@ + rest),
            )
        },
    }
}

proof fn select_item_unfolds(x: SelectItem, s: Seq<char>)
    ensures
        select_item_sealed(x, s) == ast_text::select_item_tag(x) + select_item_after(x, s),
{
    reveal(select_item_sealed);
    reveal(expr_sealed);
}

spec fn distinct_after(x: Distinct, rest: Seq<char>) -> Seq<char> {
    match x {
        Distinct::Absent => rest,
        Distinct::All => rest,
        Distinct::Distinct => rest,
        Distinct::On(x0) => "("@ + expr_list_sealed(x0@, ")"@ + rest),
    }
}

proof fn distinct_unfolds(x: Distinct, s: Seq<char>)
    ensures
        distinct_sealed(x, s) == ast_text::distinct_tag(x) + distinct_after(x, s),
{
    reveal(distinct_sealed);
    reveal(expr_list_sealed);
}

spec fn join_condition_after(x: JoinCondition, rest: Seq<char>) -> Seq<char> {
    match x {
        JoinCondition::Absent => rest,
        JoinCondition::On(x0) => "("@ + expr_sealed(x0, ")"@ + rest),
        JoinCondition::Using(x0) => "("@ + ast_text::identifier_list_put(x0@, ")"@ + rest),
    }
}

proof fn join_condition_unfolds(x: JoinCondition, s: Seq<char>)
    ensures
        join_condition_sealed(x, s) == ast_text::join_condition_tag(x) + join_condition_after(x, s),
{
    reveal(join_condition_sealed);
    reveal(expr_sealed);
}

spec fn table_ref_after(x: TableRef, rest: Seq<char>) -> Seq<char> {
    match x {
        TableRef::Named { name, alias } => {
            " { name: "@ + ast_text::object_name_put(
                name,
                ", alias: "@ + ast_text::optional_identifier_put(alias, " }"@ + rest),
            )
        },
        TableRef::Subquery { select, alias, column_aliases } => {
            " { select: "@ + select_stmt_sealed(
                *select,
                ", alias: "@ + ast_text::identifier_put(
                    alias,
                    ", column_aliases: "@ + ast_text::identifier_list_put(
                        column_aliases@,
                        " }"@ + rest,
                    ),
                ),
            )
        },
        TableRef::Join { left, op, right, condition } => {
            " { left: "@ + table_ref_sealed(
                *left,
                ", op: "@ + ast_text::join_op_put(
                    op,
                    ", right: "@ + table_ref_sealed(
                        *right,
                        ", condition: "@ + join_condition_sealed(condition, " }"@ + rest),
                    ),
                ),
            )
        },
    }
}

proof fn table_ref_unfolds(x: TableRef, s: Seq<char>)
    ensures
        table_ref_sealed(x, s) == ast_text::table_ref_tag(x) + table_ref_after(x, s),
{
    reveal(table_ref_sealed);
    reveal(select_stmt_sealed);
    reveal(join_condition_sealed);
}

proof fn branch_unfolds(x: (Expr, Expr), s: Seq<char>)
    ensures
        branch_sealed(x, s) == "("@ + expr_sealed(x.0, ", "@ + expr_sealed(x.1, ")"@ + s)),
{
    reveal(branch_sealed);
    reveal(expr_sealed);
}

proof fn branch_list_unfolds(x: Seq<(Expr, Expr)>, i: int, s: Seq<char>)
    requires
        0 <= i,
    ensures
        branch_list_sealed(x, s) == "["@ + branch_list_from_sealed(x, 0, s),
        branch_list_from_sealed(x, i, s) == if i >= x.len() {
            "]"@ + s
        } else if i == 0 {
            branch_sealed(x[i], branch_list_from_sealed(x, i + 1, s))
        } else {
            ", "@ + branch_sealed(x[i], branch_list_from_sealed(x, i + 1, s))
        },
{
    reveal(branch_list_sealed);
    reveal(branch_list_from_sealed);
    reveal(branch_sealed);
}

proof fn cte_def_list_unfolds(x: Seq<CteDef>, i: int, s: Seq<char>)
    requires
        0 <= i,
    ensures
        cte_def_list_sealed(x, s) == "["@ + cte_def_list_from_sealed(x, 0, s),
        cte_def_list_from_sealed(x, i, s) == if i >= x.len() {
            "]"@ + s
        } else if i == 0 {
            cte_def_sealed(x[i], cte_def_list_from_sealed(x, i + 1, s))
        } else {
            ", "@ + cte_def_sealed(x[i], cte_def_list_from_sealed(x, i + 1, s))
        },
{
    reveal(cte_def_list_sealed);
    reveal(cte_def_list_from_sealed);
    reveal(cte_def_sealed);
}

proof fn expr_list_unfolds(x: Seq<Expr>, i: int, s: Seq<char>)
    requires
        0 <= i,
    ensures
        expr_list_sealed(x, s) == "["@ + expr_list_from_sealed(x, 0, s),
        expr_list_from_sealed(x, i, s) == if i >= x.len() {
            "]"@ + s
        } else if i == 0 {
            expr_sealed(x[i], expr_list_from_sealed(x, i + 1, s))
        } else {
            ", "@ + expr_sealed(x[i], expr_list_from_sealed(x, i + 1, s))
        },
{
    reveal(expr_list_sealed);
    reveal(expr_list_from_sealed);
    reveal(expr_sealed);
}

proof fn order_item_list_unfolds(x: Seq<OrderItem>, i: int, s: Seq<char>)
    requires
        0 <= i,
    ensures
        order_item_list_sealed(x, s) == "["@ + order_item_list_from_sealed(x, 0, s),
        order_item_list_from_sealed(x, i, s) == if i >= x.len() {
            "]"@ + s
        } else if i == 0 {
            order_item_sealed(x[i], order_item_list_from_sealed(x, i + 1, s))
        } else {
            ", "@ + order_item_sealed(x[i], order_item_list_from_sealed(x, i + 1, s))
        },
{
    reveal(order_item_list_sealed);
    reveal(order_item_list_from_sealed);
    reveal(order_item_sealed);
}

proof fn select_item_list_unfolds(x: Seq<SelectItem>, i: int, s: Seq<char>)
    requires
        0 <= i,
    ensures
        select_item_list_sealed(x, s) == "["@ + select_item_list_from_sealed(x, 0, s),
        select_item_list_from_sealed(x, i, s) == if i >= x.len() {
            "]"@ + s
        } else if i == 0 {
            select_item_sealed(x[i], select_item_list_from_sealed(x, i + 1, s))
        } else {
            ", "@ + select_item_sealed(x[i], select_item_list_from_sealed(x, i + 1, s))
        },
{
    reveal(select_item_list_sealed);
    reveal(select_item_list_from_sealed);
    reveal(select_item_sealed);
}

proof fn set_op_tail_list_unfolds(x: Seq<SetOpTail>, i: int, s: Seq<char>)
    requires
        0 <= i,
    ensures
        set_op_tail_list_sealed(x, s) == "["@ + set_op_tail_list_from_sealed(x, 0, s),
        set_op_tail_list_from_sealed(x, i, s) == if i >= x.len() {
            "]"@ + s
        } else if i == 0 {
            set_op_tail_sealed(x[i], set_op_tail_list_from_sealed(x, i + 1, s))
        } else {
            ", "@ + set_op_tail_sealed(x[i], set_op_tail_list_from_sealed(x, i + 1, s))
        },
{
    reveal(set_op_tail_list_sealed);
    reveal(set_op_tail_list_from_sealed);
    reveal(set_op_tail_sealed);
}

proof fn table_ref_list_unfolds(x: Seq<TableRef>, i: int, s: Seq<char>)
    requires
        0 <= i,
    ensures
        table_ref_list_sealed(x, s) == "["@ + table_ref_list_from_sealed(x, 0, s),
        table_ref_list_from_sealed(x, i, s) == if i >= x.len() {
            "]"@ + s
        } else if i == 0 {
            table_ref_sealed(x[i], table_ref_list_from_sealed(x, i + 1, s))
        } else {
            ", "@ + table_ref_sealed(x[i], table_ref_list_from_sealed(x, i + 1, s))
        },
{
    reveal(table_ref_list_sealed);
    reveal(table_ref_list_from_sealed);
    reveal(table_ref_sealed);
}

proof fn optional_expr_unfolds(x: Option<Expr>, s: Seq<char>)
    ensures
        optional_expr_sealed(x, s) == match x {
            Some(y) => "Some"@ + ("("@ + expr_sealed(y, ")"@ + s)),
            None => "None"@ + s,
        },
{
    reveal(optional_expr_sealed);
    reveal(expr_sealed);
}

proof fn optional_window_spec_unfolds(x: Option<WindowSpec>, s: Seq<char>)
    ensures
        optional_window_spec_sealed(x, s) == match x {
            Some(y) => "Some"@ + ("("@ + window_spec_sealed(y, ")"@ + s)),
            None => "None"@ + s,
        },
{
    reveal(optional_window_spec_sealed);
    reveal(window_spec_sealed);
}

proof fn optional_boxed_expr_unfolds(x: Option<Box<Expr>>, s: Seq<char>)
    ensures
        optional_boxed_expr_sealed(x, s) == match x {
            Some(y) => "Some"@ + ("("@ + expr_sealed(*y, ")"@ + s)),
            None => "None"@ + s,
        },
{
    reveal(optional_boxed_expr_sealed);
    reveal(expr_sealed);
}

proof fn optional_order_item_list_unfolds(x: Option<Vec<OrderItem>>, s: Seq<char>)
    ensures
        optional_order_item_list_sealed(x, s) == match x {
            Some(y) => "Some"@ + ("("@ + order_item_list_sealed(y@, ")"@ + s)),
            None => "None"@ + s,
        },
{
    reveal(optional_order_item_list_sealed);
    reveal(order_item_list_sealed);
}

proof fn identifier_starts(x: Identifier, s: Seq<char>)
    ensures
        ast_text::identifier_put(x, s).len() > 0,
        word_char(ast_text::identifier_put(x, s)[0]),
{
    reveal_strlit("Identifier");
}

proof fn identifier_decodes(x: Identifier, y: Identifier, s: Seq<char>, t: Seq<char>)
    requires
        ast_text::identifier_put(x, s) == ast_text::identifier_put(y, t),
        stops(s),
        stops(t),
    ensures
        same_identifier(x, y),
        s == t,
{
    reveal_strlit(" }");
    cancel(
        "Identifier"@,
        " { value: "@ + ast_text::quoted_put(x.value@, " }"@ + s),
        " { value: "@ + ast_text::quoted_put(y.value@, " }"@ + t),
    );
    let cx1 = " }"@ + s;
    let cy1 = " }"@ + t;
    let ax0 = ast_text::quoted_put(x.value@, cx1);
    let ay0 = ast_text::quoted_put(y.value@, cy1);
    cancel(" { value: "@, ax0, ay0);
    quoted_decodes(x.value@, y.value@, cx1, cy1);
    cancel(" }"@, s, t);
}

proof fn object_name_decodes(x: ObjectName, y: ObjectName, s: Seq<char>, t: Seq<char>)
    requires
        ast_text::object_name_put(x, s) == ast_text::object_name_put(y, t),
        stops(s),
        stops(t),
    ensures
        same_object_name(x, y),
        s == t,
{
    reveal_strlit(" }");
    cancel(
        "ObjectName"@,
        " { parts: "@ + ast_text::identifier_list_put(x.parts@, " }"@ + s),
        " { parts: "@ + ast_text::identifier_list_put(y.parts@, " }"@ + t),
    );
    let cx1 = " }"@ + s;
    let cy1 = " }"@ + t;
    let ax0 = ast_text::identifier_list_put(x.parts@, cx1);
    let ay0 = ast_text::identifier_list_put(y.parts@, cy1);
    cancel(" { parts: "@, ax0, ay0);
    identifier_list_decodes(x.parts@, y.parts@, cx1, cy1);
    cancel(" }"@, s, t);
}

proof fn order_item_starts(x: OrderItem, s: Seq<char>)
    ensures
        order_item_sealed(x, s).len() > 0,
        word_char(order_item_sealed(x, s)[0]),
{
    order_item_unfolds(x, s);
    reveal_strlit("OrderItem");
}

proof fn order_item_decodes(x: OrderItem, y: OrderItem, s: Seq<char>, t: Seq<char>)
    requires
        order_item_sealed(x, s) == order_item_sealed(y, t),
        stops(s),
        stops(t),
    ensures
        same_order_item(x, y),
        s == t,
    decreases x, 0int,
{
    order_item_unfolds(x, s);
    order_item_unfolds(y, t);
    reveal_strlit(", direction: ");
    reveal_strlit(", nulls: ");
    reveal_strlit(" }");
    cancel(
        "OrderItem"@,
        " { expr: "@ + expr_sealed(
            x.expr,
            ", direction: "@ + ast_text::sort_direction_put(
                x.direction,
                ", nulls: "@ + ast_text::nulls_order_put(x.nulls, " }"@ + s),
            ),
        ),
        " { expr: "@ + expr_sealed(
            y.expr,
            ", direction: "@ + ast_text::sort_direction_put(
                y.direction,
                ", nulls: "@ + ast_text::nulls_order_put(y.nulls, " }"@ + t),
            ),
        ),
    );
    let cx3 = " }"@ + s;
    let cy3 = " }"@ + t;
    let ax2 = ast_text::nulls_order_put(x.nulls, cx3);
    let ay2 = ast_text::nulls_order_put(y.nulls, cy3);
    let cx2 = ", nulls: "@ + ax2;
    let cy2 = ", nulls: "@ + ay2;
    let ax1 = ast_text::sort_direction_put(x.direction, cx2);
    let ay1 = ast_text::sort_direction_put(y.direction, cy2);
    let cx1 = ", direction: "@ + ax1;
    let cy1 = ", direction: "@ + ay1;
    let ax0 = expr_sealed(x.expr, cx1);
    let ay0 = expr_sealed(y.expr, cy1);
    cancel(" { expr: "@, ax0, ay0);
    expr_decodes(x.expr, y.expr, cx1, cy1);
    cancel(", direction: "@, ax1, ay1);
    sort_direction_decodes(x.direction, y.direction, cx2, cy2);
    cancel(", nulls: "@, ax2, ay2);
    nulls_order_decodes(x.nulls, y.nulls, cx3, cy3);
    cancel(" }"@, s, t);
}

proof fn window_spec_decodes(x: WindowSpec, y: WindowSpec, s: Seq<char>, t: Seq<char>)
    requires
        window_spec_sealed(x, s) == window_spec_sealed(y, t),
        stops(s),
        stops(t),
    ensures
        same_window_spec(x, y),
        s == t,
    decreases x, 0int,
{
    window_spec_unfolds(x, s);
    window_spec_unfolds(y, t);
    reveal_strlit(", order_by: ");
    reveal_strlit(" }");
    cancel(
        "WindowSpec"@,
        " { partition_by: "@ + expr_list_sealed(
            x.partition_by@,
            ", order_by: "@ + order_item_list_sealed(x.order_by@, " }"@ + s),
        ),
        " { partition_by: "@ + expr_list_sealed(
            y.partition_by@,
            ", order_by: "@ + order_item_list_sealed(y.order_by@, " }"@ + t),
        ),
    );
    let cx2 = " }"@ + s;
    let cy2 = " }"@ + t;
    let ax1 = order_item_list_sealed(x.order_by@, cx2);
    let ay1 = order_item_list_sealed(y.order_by@, cy2);
    let cx1 = ", order_by: "@ + ax1;
    let cy1 = ", order_by: "@ + ay1;
    let ax0 = expr_list_sealed(x.partition_by@, cx1);
    let ay0 = expr_list_sealed(y.partition_by@, cy1);
    cancel(" { partition_by: "@, ax0, ay0);
    expr_list_decodes(x.partition_by@, y.partition_by@, cx1, cy1);
    cancel(", order_by: "@, ax1, ay1);
    order_item_list_decodes(x.order_by@, y.order_by@, cx2, cy2);
    cancel(" }"@, s, t);
}

proof fn cte_def_starts(x: CteDef, s: Seq<char>)
    ensures
        cte_def_sealed(x, s).len() > 0,
        word_char(cte_def_sealed(x, s)[0]),
{
    cte_def_unfolds(x, s);
    reveal_strlit("CteDef");
}

proof fn cte_def_decodes(x: CteDef, y: CteDef, s: Seq<char>, t: Seq<char>)
    requires
        cte_def_sealed(x, s) == cte_def_sealed(y, t),
        stops(s),
        stops(t),
    ensures
        same_cte_def(x, y),
        s == t,
    decreases x, 0int,
{
    cte_def_unfolds(x, s);
    cte_def_unfolds(y, t);
    reveal_strlit(", column_aliases: ");
    reveal_strlit(", recursive: ");
    reveal_strlit(", query: ");
    reveal_strlit(" }");
    cancel(
        "CteDef"@,
        " { name: "@ + ast_text::identifier_put(
            x.name,
            ", column_aliases: "@ + ast_text::identifier_list_put(
                x.column_aliases@,
                ", recursive: "@ + ast_text::flag_put(
                    x.recursive,
                    ", query: "@ + select_stmt_sealed(*x.query, " }"@ + s),
                ),
            ),
        ),
        " { name: "@ + ast_text::identifier_put(
            y.name,
            ", column_aliases: "@ + ast_text::identifier_list_put(
                y.column_aliases@,
                ", recursive: "@ + ast_text::flag_put(
                    y.recursive,
                    ", query: "@ + select_stmt_sealed(*y.query, " }"@ + t),
                ),
            ),
        ),
    );
    let cx4 = " }"@ + s;
    let cy4 = " }"@ + t;
    let ax3 = select_stmt_sealed(*x.query, cx4);
    let ay3 = select_stmt_sealed(*y.query, cy4);
    let cx3 = ", query: "@ + ax3;
    let cy3 = ", query: "@ + ay3;
    let ax2 = ast_text::flag_put(x.recursive, cx3);
    let ay2 = ast_text::flag_put(y.recursive, cy3);
    let cx2 = ", recursive: "@ + ax2;
    let cy2 = ", recursive: "@ + ay2;
    let ax1 = ast_text::identifier_list_put(x.column_aliases@, cx2);
    let ay1 = ast_text::identifier_list_put(y.column_aliases@, cy2);
    let cx1 = ", column_aliases: "@ + ax1;
    let cy1 = ", column_aliases: "@ + ay1;
    let ax0 = ast_text::identifier_put(x.name, cx1);
    let ay0 = ast_text::identifier_put(y.name, cy1);
    cancel(" { name: "@, ax0, ay0);
    identifier_decodes(x.name, y.name, cx1, cy1);
    cancel(", column_aliases: "@, ax1, ay1);
    identifier_list_decodes(x.column_aliases@, y.column_aliases@, cx2, cy2);
    cancel(", recursive: "@, ax2, ay2);
    flag_decodes(x.recursive, y.recursive, cx3, cy3);
    cancel(", query: "@, ax3, ay3);
    select_stmt_decodes(*x.query, *y.query, cx4, cy4);
    cancel(" }"@, s, t);
}

proof fn set_op_tail_starts(x: SetOpTail, s: Seq<char>)
    ensures
        set_op_tail_sealed(x, s).len() > 0,
        word_char(set_op_tail_sealed(x, s)[0]),
{
    set_op_tail_unfolds(x, s);
    reveal_strlit("SetOpTail");
}

proof fn set_op_tail_decodes(x: SetOpTail, y: SetOpTail, s: Seq<char>, t: Seq<char>)
    requires
        set_op_tail_sealed(x, s) == set_op_tail_sealed(y, t),
        stops(s),
        stops(t),
    ensures
        same_set_op_tail(x, y),
        s == t,
    decreases x, 0int,
{
    set_op_tail_unfolds(x, s);
    set_op_tail_unfolds(y, t);
    reveal_strlit(", quantifier: ");
    reveal_strlit(", right: ");
    reveal_strlit(" }");
    cancel(
        "SetOpTail"@,
        " { op: "@ + ast_text::set_op_put(
            x.op,
            ", quantifier: "@ + ast_text::set_quantifier_put(
                x.quantifier,
                ", right: "@ + select_stmt_sealed(*x.right, " }"@ + s),
            ),
        ),
        " { op: "@ + ast_text::set_op_put(
            y.op,
            ", quantifier: "@ + ast_text::set_quantifier_put(
                y.quantifier,
                ", right: "@ + select_stmt_sealed(*y.right, " }"@ + t),
            ),
        ),
    );
    let cx3 = " }"@ + s;
    let cy3 = " }"@ + t;
    let ax2 = select_stmt_sealed(*x.right, cx3);
    let ay2 = select_stmt_sealed(*y.right, cy3);
    let cx2 = ", right: "@ + ax2;
    let cy2 = ", right: "@ + ay2;
    let ax1 = ast_text::set_quantifier_put(x.quantifier, cx2);
    let ay1 = ast_text::set_quantifier_put(y.quantifier, cy2);
    let cx1 = ", quantifier: "@ + ax1;
    let cy1 = ", quantifier: "@ + ay1;
    let ax0 = ast_text::set_op_put(x.op, cx1);
    let ay0 = ast_text::set_op_put(y.op, cy1);
    cancel(" { op: "@, ax0, ay0);
    set_op_decodes(x.op, y.op, cx1, cy1);
    cancel(", quantifier: "@, ax1, ay1);
    set_quantifier_decodes(x.quantifier, y.quantifier, cx2, cy2);
    cancel(", right: "@, ax2, ay2);
    select_stmt_decodes(*x.right, *y.right, cx3, cy3);
    cancel(" }"@, s, t);
}

#[verifier::rlimit(80)]
proof fn select_stmt_decodes(x: SelectStmt, y: SelectStmt, s: Seq<char>, t: Seq<char>)
    requires
        select_stmt_sealed(x, s) == select_stmt_sealed(y, t),
        stops(s),
        stops(t),
    ensures
        same_select_stmt(x, y),
        s == t,
    decreases x, 0int,
{
    select_stmt_unfolds(x, s);
    select_stmt_unfolds(y, t);
    reveal_strlit(", distinct: ");
    reveal_strlit(", projection: ");
    reveal_strlit(", from: ");
    reveal_strlit(", where_clause: ");
    reveal_strlit(", group_by: ");
    reveal_strlit(", having: ");
    reveal_strlit(", set_ops: ");
    reveal_strlit(", order_by: ");
    reveal_strlit(", limit: ");
    reveal_strlit(", offset: ");
    reveal_strlit(" }");
    cancel(
        "SelectStmt"@,
        " { ctes: "@ + cte_def_list_sealed(
            x.ctes@,
            ", distinct: "@ + distinct_sealed(
                x.distinct,
                ", projection: "@ + select_item_list_sealed(
                    x.projection@,
                    ", from: "@ + table_ref_list_sealed(
                        x.from@,
                        ", where_clause: "@ + optional_expr_sealed(
                            x.where_clause,
                            ", group_by: "@ + expr_list_sealed(
                                x.group_by@,
                                ", having: "@ + optional_expr_sealed(
                                    x.having,
                                    ", set_ops: "@ + set_op_tail_list_sealed(
                                        x.set_ops@,
                                        ", order_by: "@ + order_item_list_sealed(
                                            x.order_by@,
                                            ", limit: "@ + optional_expr_sealed(
                                                x.limit,
                                                ", offset: "@ + optional_expr_sealed(
                                                    x.offset,
                                                    " }"@ + s,
                                                ),
                                            ),
                                        ),
                                    ),
                                ),
                            ),
                        ),
                    ),
                ),
            ),
        ),
        " { ctes: "@ + cte_def_list_sealed(
            y.ctes@,
            ", distinct: "@ + distinct_sealed(
                y.distinct,
                ", projection: "@ + select_item_list_sealed(
                    y.projection@,
                    ", from: "@ + table_ref_list_sealed(
                        y.from@,
                        ", where_clause: "@ + optional_expr_sealed(
                            y.where_clause,
                            ", group_by: "@ + expr_list_sealed(
                                y.group_by@,
                                ", having: "@ + optional_expr_sealed(
                                    y.having,
                                    ", set_ops: "@ + set_op_tail_list_sealed(
                                        y.set_ops@,
                                        ", order_by: "@ + order_item_list_sealed(
                                            y.order_by@,
                                            ", limit: "@ + optional_expr_sealed(
                                                y.limit,
                                                ", offset: "@ + optional_expr_sealed(
                                                    y.offset,
                                                    " }"@ + t,
                                                ),
                                            ),
                                        ),
                                    ),
                                ),
                            ),
                        ),
                    ),
                ),
            ),
        ),
    );
    let cx11 = " }"@ + s;
    let cy11 = " }"@ + t;
    let ax10 = optional_expr_sealed(x.offset, cx11);
    let ay10 = optional_expr_sealed(y.offset, cy11);
    let cx10 = ", offset: "@ + ax10;
    let cy10 = ", offset: "@ + ay10;
    let ax9 = optional_expr_sealed(x.limit, cx10);
    let ay9 = optional_expr_sealed(y.limit, cy10);
    let cx9 = ", limit: "@ + ax9;
    let cy9 = ", limit: "@ + ay9;
    let ax8 = order_item_list_sealed(x.order_by@, cx9);
    let ay8 = order_item_list_sealed(y.order_by@, cy9);
    let cx8 = ", order_by: "@ + ax8;
    let cy8 = ", order_by: "@ + ay8;
    let ax7 = set_op_tail_list_sealed(x.set_ops@, cx8);
    let ay7 = set_op_tail_list_sealed(y.set_ops@, cy8);
    let cx7 = ", set_ops: "@ + ax7;
    let cy7 = ", set_ops: "@ + ay7;
    let ax6 = optional_expr_sealed(x.having, cx7);
    let ay6 = optional_expr_sealed(y.having, cy7);
    let cx6 = ", having: "@ + ax6;
    let cy6 = ", having: "@ + ay6;
    let ax5 = expr_list_sealed(x.group_by@, cx6);
    let ay5 = expr_list_sealed(y.group_by@, cy6);
    let cx5 = ", group_by: "@ + ax5;
    let cy5 = ", group_by: "@ + ay5;
    let ax4 = optional_expr_sealed(x.where_clause, cx5);
    let ay4 = optional_expr_sealed(y.where_clause, cy5);
    let cx4 = ", where_clause: "@ + ax4;
    let cy4 = ", where_clause: "@ + ay4;
    let ax3 = table_ref_list_sealed(x.from@, cx4);
    let ay3 = table_ref_list_sealed(y.from@, cy4);
    let cx3 = ", from: "@ + ax3;
    let cy3 = ", from: "@ + ay3;
    let ax2 = select_item_list_sealed(x.projection@, cx3);
    let ay2 = select_item_list_sealed(y.projection@, cy3);
    let cx2 = ", projection: "@ + ax2;
    let cy2 = ", projection: "@ + ay2;
    let ax1 = distinct_sealed(x.distinct, cx2);
    let ay1 = distinct_sealed(y.distinct, cy2);
    let cx1 = ", distinct: "@ + ax1;
    let cy1 = ", distinct: "@ + ay1;
    let ax0 = cte_def_list_sealed(x.ctes@, cx1);
    let ay0 = cte_def_list_sealed(y.ctes@, cy1);
    cancel(" { ctes: "@, ax0, ay0);
    cte_def_list_decodes(x.ctes@, y.ctes@, cx1, cy1);
    cancel(", distinct: "@, ax1, ay1);
    distinct_decodes(x.distinct, y.distinct, cx2, cy2);
    cancel(", projection: "@, ax2, ay2);
    select_item_list_decodes(x.projection@, y.projection@, cx3, cy3);
    cancel(", from: "@, ax3, ay3);
    table_ref_list_decodes(x.from@, y.from@, cx4, cy4);
    cancel(", where_clause: "@, ax4, ay4);
    optional_expr_decodes(x.where_clause, y.where_clause, cx5, cy5);
    cancel(", group_by: "@, ax5, ay5);
    expr_list_decodes(x.group_by@, y.group_by@, cx6, cy6);
    cancel(", having: "@, ax6, ay6);
    optional_expr_decodes(x.having, y.having, cx7, cy7);
    cancel(", set_ops: "@, ax7, ay7);
    set_op_tail_list_decodes(x.set_ops@, y.set_ops@, cx8, cy8);
    cancel(", order_by: "@, ax8, ay8);
    order_item_list_decodes(x.order_by@, y.order_by@, cx9, cy9);
    cancel(", limit: "@, ax9, ay9);
    optional_expr_decodes(x.limit, y.limit, cx10, cy10);
    cancel(", offset: "@, ax10, ay10);
    optional_expr_decodes(x.offset, y.offset, cx11, cy11);
    cancel(" }"@, s, t);
}

spec fn literal_variant(x: Literal) -> int {
    match x {
        Literal::Null => 0,
        Literal::Bool { .. } => 1,
        Literal::Integer { .. } => 2,
        Literal::Float { .. } => 3,
        Literal::Text { .. } => 4,
        Literal::Typed { .. } => 5,
    }
}

spec fn literal_named(tag: Seq<char>) -> int {
    if tag == "Null"@ {
        0
    } else if tag == "Bool"@ {
        1
    } else if tag == "Integer"@ {
        2
    } else if tag == "Float"@ {
        3
    } else if tag == "Text"@ {
        4
    } else {
        5
    }
}

#[verifier::rlimit(40)]
proof fn literal_tags_are_words(x: Literal)
    ensures
        word(ast_text::literal_tag(x)),
        literal_named(ast_text::literal_tag(x)) == literal_variant(x),
{
    reveal_strlit("Null");
    reveal_strlit("Bool");
    reveal_strlit("Integer");
    reveal_strlit("Float");
    reveal_strlit("Text");
    reveal_strlit("Typed");
    assert("Null"@.len() == 4);
    assert("Null"@[0] == 'N' && "Null"@[1] == 'u' && "Null"@[2] == 'l' && "Null"@[3] == 'l');
    assert("Bool"@.len() == 4);
    assert("Bool"@[0] == 'B' && "Bool"@[1] == 'o' && "Bool"@[2] == 'o' && "Bool"@[3] == 'l');
    assert("Integer"@.len() == 7);
    assert("Integer"@[0] == 'I' && "Integer"@[1] == 'n' && "Integer"@[2] == 't'
        && "Integer"@[3] == 'e' && "Integer"@[4] == 'g' && "Integer"@[5] == 'e'
        && "Integer"@[6] == 'r');
    assert("Float"@.len() == 5);
    assert("Float"@[0] == 'F' && "Float"@[1] == 'l' && "Float"@[2] == 'o' && "Float"@[3] == 'a'
        && "Float"@[4] == 't');
    assert("Text"@.len() == 4);
    assert("Text"@[0] == 'T' && "Text"@[1] == 'e' && "Text"@[2] == 'x' && "Text"@[3] == 't');
    assert("Typed"@.len() == 5);
    assert("Typed"@[0] == 'T' && "Typed"@[1] == 'y' && "Typed"@[2] == 'p' && "Typed"@[3] == 'e'
        && "Typed"@[4] == 'd');
}

proof fn literal_tag_ends(x: Literal, s: Seq<char>)
    requires
        stops(s),
    ensures
        stops(literal_after(x, s)),
{
    reveal_strlit(" { value: ");
    reveal_strlit(" { text: ");
    reveal_strlit(" { ty: ");
}

proof fn literal_bool_decodes(x: Literal, y: Literal, s: Seq<char>, t: Seq<char>)
    requires
        x is Bool,
        y is Bool,
        literal_after(x, s) == literal_after(y, t),
        stops(s),
        stops(t),
    ensures
        same_literal(x, y),
        s == t,
{
    reveal_strlit(" }");
    let cx1 = " }"@ + s;
    let cy1 = " }"@ + t;
    let ax0 = ast_text::flag_put(x->Bool_value, cx1);
    let ay0 = ast_text::flag_put(y->Bool_value, cy1);
    cancel(" { value: "@, ax0, ay0);
    flag_decodes(x->Bool_value, y->Bool_value, cx1, cy1);
    cancel(" }"@, s, t);
}

proof fn literal_integer_decodes(x: Literal, y: Literal, s: Seq<char>, t: Seq<char>)
    requires
        x is Integer,
        y is Integer,
        literal_after(x, s) == literal_after(y, t),
        stops(s),
        stops(t),
    ensures
        same_literal(x, y),
        s == t,
{
    reveal_strlit(" }");
    let cx1 = " }"@ + s;
    let cy1 = " }"@ + t;
    let ax0 = ast_text::quoted_put(x->Integer_text@, cx1);
    let ay0 = ast_text::quoted_put(y->Integer_text@, cy1);
    cancel(" { text: "@, ax0, ay0);
    quoted_decodes(x->Integer_text@, y->Integer_text@, cx1, cy1);
    cancel(" }"@, s, t);
}

proof fn literal_float_decodes(x: Literal, y: Literal, s: Seq<char>, t: Seq<char>)
    requires
        x is Float,
        y is Float,
        literal_after(x, s) == literal_after(y, t),
        stops(s),
        stops(t),
    ensures
        same_literal(x, y),
        s == t,
{
    reveal_strlit(" }");
    let cx1 = " }"@ + s;
    let cy1 = " }"@ + t;
    let ax0 = ast_text::quoted_put(x->Float_text@, cx1);
    let ay0 = ast_text::quoted_put(y->Float_text@, cy1);
    cancel(" { text: "@, ax0, ay0);
    quoted_decodes(x->Float_text@, y->Float_text@, cx1, cy1);
    cancel(" }"@, s, t);
}

proof fn literal_text_decodes(x: Literal, y: Literal, s: Seq<char>, t: Seq<char>)
    requires
        x is Text,
        y is Text,
        literal_after(x, s) == literal_after(y, t),
        stops(s),
        stops(t),
    ensures
        same_literal(x, y),
        s == t,
{
    reveal_strlit(" }");
    let cx1 = " }"@ + s;
    let cy1 = " }"@ + t;
    let ax0 = ast_text::quoted_put(x->Text_value@, cx1);
    let ay0 = ast_text::quoted_put(y->Text_value@, cy1);
    cancel(" { value: "@, ax0, ay0);
    quoted_decodes(x->Text_value@, y->Text_value@, cx1, cy1);
    cancel(" }"@, s, t);
}

proof fn literal_typed_decodes(x: Literal, y: Literal, s: Seq<char>, t: Seq<char>)
    requires
        x is Typed,
        y is Typed,
        literal_after(x, s) == literal_after(y, t),
        stops(s),
        stops(t),
    ensures
        same_literal(x, y),
        s == t,
{
    reveal_strlit(", value: ");
    reveal_strlit(", unit: ");
    reveal_strlit(" }");
    let cx3 = " }"@ + s;
    let cy3 = " }"@ + t;
    let ax2 = ast_text::optional_quoted_put(x->Typed_unit, cx3);
    let ay2 = ast_text::optional_quoted_put(y->Typed_unit, cy3);
    let cx2 = ", unit: "@ + ax2;
    let cy2 = ", unit: "@ + ay2;
    let ax1 = ast_text::quoted_put(x->Typed_value@, cx2);
    let ay1 = ast_text::quoted_put(y->Typed_value@, cy2);
    let cx1 = ", value: "@ + ax1;
    let cy1 = ", value: "@ + ay1;
    let ax0 = ast_text::quoted_put(x->Typed_ty@, cx1);
    let ay0 = ast_text::quoted_put(y->Typed_ty@, cy1);
    cancel(" { ty: "@, ax0, ay0);
    quoted_decodes(x->Typed_ty@, y->Typed_ty@, cx1, cy1);
    cancel(", value: "@, ax1, ay1);
    quoted_decodes(x->Typed_value@, y->Typed_value@, cx2, cy2);
    cancel(", unit: "@, ax2, ay2);
    optional_quoted_decodes(x->Typed_unit, y->Typed_unit, cx3, cy3);
    cancel(" }"@, s, t);
}

proof fn literal_decodes(x: Literal, y: Literal, s: Seq<char>, t: Seq<char>)
    requires
        ast_text::literal_put(x, s) == ast_text::literal_put(y, t),
        stops(s),
        stops(t),
    ensures
        same_literal(x, y),
        s == t,
{
    literal_unfolds(x, s);
    literal_unfolds(y, t);
    literal_tag_ends(x, s);
    literal_tag_ends(y, t);
    literal_tags_are_words(x);
    literal_tags_are_words(y);
    words_split(
        ast_text::literal_tag(x),
        literal_after(x, s),
        ast_text::literal_tag(y),
        literal_after(y, t),
    );
    match x {
        Literal::Null => {},
        Literal::Bool { .. } => {
            literal_bool_decodes(x, y, s, t);
        },
        Literal::Integer { .. } => {
            literal_integer_decodes(x, y, s, t);
        },
        Literal::Float { .. } => {
            literal_float_decodes(x, y, s, t);
        },
        Literal::Text { .. } => {
            literal_text_decodes(x, y, s, t);
        },
        Literal::Typed { .. } => {
            literal_typed_decodes(x, y, s, t);
        },
    }
}

spec fn expr_variant(x: Expr) -> int {
    match x {
        Expr::Literal(_) => 0,
        Expr::Column { .. } => 1,
        Expr::Parameter { .. } => 2,
        Expr::Paren { .. } => 3,
        Expr::Unary { .. } => 4,
        Expr::Binary { .. } => 5,
        Expr::IsNull { .. } => 6,
        Expr::Call { .. } => 7,
        Expr::Cast { .. } => 8,
        Expr::PostfixCast { .. } => 9,
        Expr::Subquery { .. } => 10,
        Expr::Exists { .. } => 11,
        Expr::InSubquery { .. } => 12,
        Expr::Any { .. } => 13,
        Expr::AnyArray { .. } => 14,
        Expr::All { .. } => 15,
        Expr::Between { .. } => 16,
        Expr::InList { .. } => 17,
        Expr::Case { .. } => 18,
        Expr::Coalesce { .. } => 19,
        Expr::NullIf { .. } => 20,
        Expr::Greatest { .. } => 21,
        Expr::Least { .. } => 22,
        Expr::IsBoolean { .. } => 23,
        Expr::IsDistinctFrom { .. } => 24,
        Expr::Row { .. } => 25,
        Expr::ArrayLiteral { .. } => 26,
        Expr::ArraySubscript { .. } => 27,
        Expr::ArraySlice { .. } => 28,
        Expr::Collate { .. } => 29,
        Expr::AtTimeZone { .. } => 30,
        Expr::Default => 31,
    }
}

spec fn expr_named(tag: Seq<char>) -> int {
    if tag == "Literal"@ {
        0
    } else if tag == "Column"@ {
        1
    } else if tag == "Parameter"@ {
        2
    } else if tag == "Paren"@ {
        3
    } else if tag == "Unary"@ {
        4
    } else if tag == "Binary"@ {
        5
    } else if tag == "IsNull"@ {
        6
    } else if tag == "Call"@ {
        7
    } else if tag == "Cast"@ {
        8
    } else if tag == "PostfixCast"@ {
        9
    } else if tag == "Subquery"@ {
        10
    } else if tag == "Exists"@ {
        11
    } else if tag == "InSubquery"@ {
        12
    } else if tag == "Any"@ {
        13
    } else if tag == "AnyArray"@ {
        14
    } else if tag == "All"@ {
        15
    } else if tag == "Between"@ {
        16
    } else if tag == "InList"@ {
        17
    } else if tag == "Case"@ {
        18
    } else if tag == "Coalesce"@ {
        19
    } else if tag == "NullIf"@ {
        20
    } else if tag == "Greatest"@ {
        21
    } else if tag == "Least"@ {
        22
    } else if tag == "IsBoolean"@ {
        23
    } else if tag == "IsDistinctFrom"@ {
        24
    } else if tag == "Row"@ {
        25
    } else if tag == "ArrayLiteral"@ {
        26
    } else if tag == "ArraySubscript"@ {
        27
    } else if tag == "ArraySlice"@ {
        28
    } else if tag == "Collate"@ {
        29
    } else if tag == "AtTimeZone"@ {
        30
    } else {
        31
    }
}

#[verifier::rlimit(40)]
proof fn expr_tags_are_words(x: Expr)
    ensures
        word(ast_text::expr_tag(x)),
        expr_named(ast_text::expr_tag(x)) == expr_variant(x),
{
    reveal_strlit("Literal");
    reveal_strlit("Column");
    reveal_strlit("Parameter");
    reveal_strlit("Paren");
    reveal_strlit("Unary");
    reveal_strlit("Binary");
    reveal_strlit("IsNull");
    reveal_strlit("Call");
    reveal_strlit("Cast");
    reveal_strlit("PostfixCast");
    reveal_strlit("Subquery");
    reveal_strlit("Exists");
    reveal_strlit("InSubquery");
    reveal_strlit("Any");
    reveal_strlit("AnyArray");
    reveal_strlit("All");
    reveal_strlit("Between");
    reveal_strlit("InList");
    reveal_strlit("Case");
    reveal_strlit("Coalesce");
    reveal_strlit("NullIf");
    reveal_strlit("Greatest");
    reveal_strlit("Least");
    reveal_strlit("IsBoolean");
    reveal_strlit("IsDistinctFrom");
    reveal_strlit("Row");
    reveal_strlit("ArrayLiteral");
    reveal_strlit("ArraySubscript");
    reveal_strlit("ArraySlice");
    reveal_strlit("Collate");
    reveal_strlit("AtTimeZone");
    reveal_strlit("Default");
    assert("Literal"@.len() == 7);
    assert("Literal"@[0] == 'L' && "Literal"@[1] == 'i' && "Literal"@[2] == 't'
        && "Literal"@[3] == 'e' && "Literal"@[4] == 'r' && "Literal"@[5] == 'a'
        && "Literal"@[6] == 'l');
    assert("Column"@.len() == 6);
    assert("Column"@[0] == 'C' && "Column"@[1] == 'o' && "Column"@[2] == 'l'
        && "Column"@[3] == 'u' && "Column"@[4] == 'm' && "Column"@[5] == 'n');
    assert("Parameter"@.len() == 9);
    assert("Parameter"@[0] == 'P' && "Parameter"@[1] == 'a' && "Parameter"@[2] == 'r'
        && "Parameter"@[3] == 'a' && "Parameter"@[4] == 'm' && "Parameter"@[5] == 'e'
        && "Parameter"@[6] == 't' && "Parameter"@[7] == 'e' && "Parameter"@[8] == 'r');
    assert("Paren"@.len() == 5);
    assert("Paren"@[0] == 'P' && "Paren"@[1] == 'a' && "Paren"@[2] == 'r' && "Paren"@[3] == 'e'
        && "Paren"@[4] == 'n');
    assert("Unary"@.len() == 5);
    assert("Unary"@[0] == 'U' && "Unary"@[1] == 'n' && "Unary"@[2] == 'a' && "Unary"@[3] == 'r'
        && "Unary"@[4] == 'y');
    assert("Binary"@.len() == 6);
    assert("Binary"@[0] == 'B' && "Binary"@[1] == 'i' && "Binary"@[2] == 'n'
        && "Binary"@[3] == 'a' && "Binary"@[4] == 'r' && "Binary"@[5] == 'y');
    assert("IsNull"@.len() == 6);
    assert("IsNull"@[0] == 'I' && "IsNull"@[1] == 's' && "IsNull"@[2] == 'N'
        && "IsNull"@[3] == 'u' && "IsNull"@[4] == 'l' && "IsNull"@[5] == 'l');
    assert("Call"@.len() == 4);
    assert("Call"@[0] == 'C' && "Call"@[1] == 'a' && "Call"@[2] == 'l' && "Call"@[3] == 'l');
    assert("Cast"@.len() == 4);
    assert("Cast"@[0] == 'C' && "Cast"@[1] == 'a' && "Cast"@[2] == 's' && "Cast"@[3] == 't');
    assert("PostfixCast"@.len() == 11);
    assert("PostfixCast"@[0] == 'P' && "PostfixCast"@[1] == 'o' && "PostfixCast"@[2] == 's'
        && "PostfixCast"@[3] == 't' && "PostfixCast"@[4] == 'f' && "PostfixCast"@[5] == 'i'
        && "PostfixCast"@[6] == 'x' && "PostfixCast"@[7] == 'C' && "PostfixCast"@[8] == 'a'
        && "PostfixCast"@[9] == 's' && "PostfixCast"@[10] == 't');
    assert("Subquery"@.len() == 8);
    assert("Subquery"@[0] == 'S' && "Subquery"@[1] == 'u' && "Subquery"@[2] == 'b'
        && "Subquery"@[3] == 'q' && "Subquery"@[4] == 'u' && "Subquery"@[5] == 'e'
        && "Subquery"@[6] == 'r' && "Subquery"@[7] == 'y');
    assert("Exists"@.len() == 6);
    assert("Exists"@[0] == 'E' && "Exists"@[1] == 'x' && "Exists"@[2] == 'i'
        && "Exists"@[3] == 's' && "Exists"@[4] == 't' && "Exists"@[5] == 's');
    assert("InSubquery"@.len() == 10);
    assert("InSubquery"@[0] == 'I' && "InSubquery"@[1] == 'n' && "InSubquery"@[2] == 'S'
        && "InSubquery"@[3] == 'u' && "InSubquery"@[4] == 'b' && "InSubquery"@[5] == 'q'
        && "InSubquery"@[6] == 'u' && "InSubquery"@[7] == 'e' && "InSubquery"@[8] == 'r'
        && "InSubquery"@[9] == 'y');
    assert("Any"@.len() == 3);
    assert("Any"@[0] == 'A' && "Any"@[1] == 'n' && "Any"@[2] == 'y');
    assert("AnyArray"@.len() == 8);
    assert("AnyArray"@[0] == 'A' && "AnyArray"@[1] == 'n' && "AnyArray"@[2] == 'y'
        && "AnyArray"@[3] == 'A' && "AnyArray"@[4] == 'r' && "AnyArray"@[5] == 'r'
        && "AnyArray"@[6] == 'a' && "AnyArray"@[7] == 'y');
    assert("All"@.len() == 3);
    assert("All"@[0] == 'A' && "All"@[1] == 'l' && "All"@[2] == 'l');
    assert("Between"@.len() == 7);
    assert("Between"@[0] == 'B' && "Between"@[1] == 'e' && "Between"@[2] == 't'
        && "Between"@[3] == 'w' && "Between"@[4] == 'e' && "Between"@[5] == 'e'
        && "Between"@[6] == 'n');
    assert("InList"@.len() == 6);
    assert("InList"@[0] == 'I' && "InList"@[1] == 'n' && "InList"@[2] == 'L'
        && "InList"@[3] == 'i' && "InList"@[4] == 's' && "InList"@[5] == 't');
    assert("Case"@.len() == 4);
    assert("Case"@[0] == 'C' && "Case"@[1] == 'a' && "Case"@[2] == 's' && "Case"@[3] == 'e');
    assert("Coalesce"@.len() == 8);
    assert("Coalesce"@[0] == 'C' && "Coalesce"@[1] == 'o' && "Coalesce"@[2] == 'a'
        && "Coalesce"@[3] == 'l' && "Coalesce"@[4] == 'e' && "Coalesce"@[5] == 's'
        && "Coalesce"@[6] == 'c' && "Coalesce"@[7] == 'e');
    assert("NullIf"@.len() == 6);
    assert("NullIf"@[0] == 'N' && "NullIf"@[1] == 'u' && "NullIf"@[2] == 'l'
        && "NullIf"@[3] == 'l' && "NullIf"@[4] == 'I' && "NullIf"@[5] == 'f');
    assert("Greatest"@.len() == 8);
    assert("Greatest"@[0] == 'G' && "Greatest"@[1] == 'r' && "Greatest"@[2] == 'e'
        && "Greatest"@[3] == 'a' && "Greatest"@[4] == 't' && "Greatest"@[5] == 'e'
        && "Greatest"@[6] == 's' && "Greatest"@[7] == 't');
    assert("Least"@.len() == 5);
    assert("Least"@[0] == 'L' && "Least"@[1] == 'e' && "Least"@[2] == 'a' && "Least"@[3] == 's'
        && "Least"@[4] == 't');
    assert("IsBoolean"@.len() == 9);
    assert("IsBoolean"@[0] == 'I' && "IsBoolean"@[1] == 's' && "IsBoolean"@[2] == 'B'
        && "IsBoolean"@[3] == 'o' && "IsBoolean"@[4] == 'o' && "IsBoolean"@[5] == 'l'
        && "IsBoolean"@[6] == 'e' && "IsBoolean"@[7] == 'a' && "IsBoolean"@[8] == 'n');
    assert("IsDistinctFrom"@.len() == 14);
    assert("IsDistinctFrom"@[0] == 'I' && "IsDistinctFrom"@[1] == 's'
        && "IsDistinctFrom"@[2] == 'D' && "IsDistinctFrom"@[3] == 'i'
        && "IsDistinctFrom"@[4] == 's' && "IsDistinctFrom"@[5] == 't'
        && "IsDistinctFrom"@[6] == 'i' && "IsDistinctFrom"@[7] == 'n'
        && "IsDistinctFrom"@[8] == 'c' && "IsDistinctFrom"@[9] == 't'
        && "IsDistinctFrom"@[10] == 'F' && "IsDistinctFrom"@[11] == 'r'
        && "IsDistinctFrom"@[12] == 'o' && "IsDistinctFrom"@[13] == 'm');
    assert("Row"@.len() == 3);
    assert("Row"@[0] == 'R' && "Row"@[1] == 'o' && "Row"@[2] == 'w');
    assert("ArrayLiteral"@.len() == 12);
    assert("ArrayLiteral"@[0] == 'A' && "ArrayLiteral"@[1] == 'r' && "ArrayLiteral"@[2] == 'r'
        && "ArrayLiteral"@[3] == 'a' && "ArrayLiteral"@[4] == 'y' && "ArrayLiteral"@[5] == 'L'
        && "ArrayLiteral"@[6] == 'i' && "ArrayLiteral"@[7] == 't' && "ArrayLiteral"@[8] == 'e'
        && "ArrayLiteral"@[9] == 'r' && "ArrayLiteral"@[10] == 'a' && "ArrayLiteral"@[11] == 'l');
    assert("ArraySubscript"@.len() == 14);
    assert("ArraySubscript"@[0] == 'A' && "ArraySubscript"@[1] == 'r'
        && "ArraySubscript"@[2] == 'r' && "ArraySubscript"@[3] == 'a'
        && "ArraySubscript"@[4] == 'y' && "ArraySubscript"@[5] == 'S'
        && "ArraySubscript"@[6] == 'u' && "ArraySubscript"@[7] == 'b'
        && "ArraySubscript"@[8] == 's' && "ArraySubscript"@[9] == 'c'
        && "ArraySubscript"@[10] == 'r' && "ArraySubscript"@[11] == 'i'
        && "ArraySubscript"@[12] == 'p' && "ArraySubscript"@[13] == 't');
    assert("ArraySlice"@.len() == 10);
    assert("ArraySlice"@[0] == 'A' && "ArraySlice"@[1] == 'r' && "ArraySlice"@[2] == 'r'
        && "ArraySlice"@[3] == 'a' && "ArraySlice"@[4] == 'y' && "ArraySlice"@[5] == 'S'
        && "ArraySlice"@[6] == 'l' && "ArraySlice"@[7] == 'i' && "ArraySlice"@[8] == 'c'
        && "ArraySlice"@[9] == 'e');
    assert("Collate"@.len() == 7);
    assert("Collate"@[0] == 'C' && "Collate"@[1] == 'o' && "Collate"@[2] == 'l'
        && "Collate"@[3] == 'l' && "Collate"@[4] == 'a' && "Collate"@[5] == 't'
        && "Collate"@[6] == 'e');
    assert("AtTimeZone"@.len() == 10);
    assert("AtTimeZone"@[0] == 'A' && "AtTimeZone"@[1] == 't' && "AtTimeZone"@[2] == 'T'
        && "AtTimeZone"@[3] == 'i' && "AtTimeZone"@[4] == 'm' && "AtTimeZone"@[5] == 'e'
        && "AtTimeZone"@[6] == 'Z' && "AtTimeZone"@[7] == 'o' && "AtTimeZone"@[8] == 'n'
        && "AtTimeZone"@[9] == 'e');
    assert("Default"@.len() == 7);
    assert("Default"@[0] == 'D' && "Default"@[1] == 'e' && "Default"@[2] == 'f'
        && "Default"@[3] == 'a' && "Default"@[4] == 'u' && "Default"@[5] == 'l'
        && "Default"@[6] == 't');
}

proof fn expr_starts(x: Expr, s: Seq<char>)
    ensures
        expr_sealed(x, s).len() > 0,
        word_char(expr_sealed(x, s)[0]),
{
    expr_unfolds(x, s);
    expr_tags_are_words(x);
    assert(expr_sealed(x, s)[0] == ast_text::expr_tag(x)[0]);
}

proof fn expr_tag_ends(x: Expr, s: Seq<char>)
    requires
        stops(s),
    ensures
        stops(expr_after(x, s)),
{
    reveal_strlit("(");
    reveal_strlit(" { name: ");
    reveal_strlit(" { index: ");
    reveal_strlit(" { expr: ");
    reveal_strlit(" { op: ");
    reveal_strlit(" { select: ");
    reveal_strlit(" { operand: ");
    reveal_strlit(" { args: ");
    reveal_strlit(" { a: ");
    reveal_strlit(" { left: ");
    reveal_strlit(" { fields: ");
    reveal_strlit(" { elements: ");
}

proof fn expr_literal_decodes(x: Expr, y: Expr, s: Seq<char>, t: Seq<char>)
    requires
        x is Literal,
        y is Literal,
        expr_after(x, s) == expr_after(y, t),
        stops(s),
        stops(t),
    ensures
        same_expr(x, y),
        s == t,
    decreases x, 0int,
{
    reveal_strlit(")");
    let cx1 = ")"@ + s;
    let cy1 = ")"@ + t;
    let ax0 = ast_text::literal_put(x->Literal_0, cx1);
    let ay0 = ast_text::literal_put(y->Literal_0, cy1);
    cancel("("@, ax0, ay0);
    literal_decodes(x->Literal_0, y->Literal_0, cx1, cy1);
    cancel(")"@, s, t);
}

proof fn expr_column_decodes(x: Expr, y: Expr, s: Seq<char>, t: Seq<char>)
    requires
        x is Column,
        y is Column,
        expr_after(x, s) == expr_after(y, t),
        stops(s),
        stops(t),
    ensures
        same_expr(x, y),
        s == t,
    decreases x, 0int,
{
    reveal_strlit(" }");
    let cx1 = " }"@ + s;
    let cy1 = " }"@ + t;
    let ax0 = ast_text::object_name_put(x->Column_name, cx1);
    let ay0 = ast_text::object_name_put(y->Column_name, cy1);
    cancel(" { name: "@, ax0, ay0);
    object_name_decodes(x->Column_name, y->Column_name, cx1, cy1);
    cancel(" }"@, s, t);
}

proof fn expr_parameter_decodes(x: Expr, y: Expr, s: Seq<char>, t: Seq<char>)
    requires
        x is Parameter,
        y is Parameter,
        expr_after(x, s) == expr_after(y, t),
        stops(s),
        stops(t),
    ensures
        same_expr(x, y),
        s == t,
    decreases x, 0int,
{
    reveal_strlit(" }");
    let cx1 = " }"@ + s;
    let cy1 = " }"@ + t;
    let ax0 = ast_text::index_put(x->Parameter_index, cx1);
    let ay0 = ast_text::index_put(y->Parameter_index, cy1);
    cancel(" { index: "@, ax0, ay0);
    index_decodes(x->Parameter_index, y->Parameter_index, cx1, cy1);
    cancel(" }"@, s, t);
}

proof fn expr_paren_decodes(x: Expr, y: Expr, s: Seq<char>, t: Seq<char>)
    requires
        x is Paren,
        y is Paren,
        expr_after(x, s) == expr_after(y, t),
        stops(s),
        stops(t),
    ensures
        same_expr(x, y),
        s == t,
    decreases x, 0int,
{
    reveal_strlit(" }");
    let cx1 = " }"@ + s;
    let cy1 = " }"@ + t;
    let ax0 = expr_sealed(*x->Paren_expr, cx1);
    let ay0 = expr_sealed(*y->Paren_expr, cy1);
    cancel(" { expr: "@, ax0, ay0);
    expr_decodes(*x->Paren_expr, *y->Paren_expr, cx1, cy1);
    cancel(" }"@, s, t);
}

proof fn expr_unary_decodes(x: Expr, y: Expr, s: Seq<char>, t: Seq<char>)
    requires
        x is Unary,
        y is Unary,
        expr_after(x, s) == expr_after(y, t),
        stops(s),
        stops(t),
    ensures
        same_expr(x, y),
        s == t,
    decreases x, 0int,
{
    reveal_strlit(", expr: ");
    reveal_strlit(" }");
    let cx2 = " }"@ + s;
    let cy2 = " }"@ + t;
    let ax1 = expr_sealed(*x->Unary_expr, cx2);
    let ay1 = expr_sealed(*y->Unary_expr, cy2);
    let cx1 = ", expr: "@ + ax1;
    let cy1 = ", expr: "@ + ay1;
    let ax0 = ast_text::unary_op_put(x->Unary_op, cx1);
    let ay0 = ast_text::unary_op_put(y->Unary_op, cy1);
    cancel(" { op: "@, ax0, ay0);
    unary_op_decodes(x->Unary_op, y->Unary_op, cx1, cy1);
    cancel(", expr: "@, ax1, ay1);
    expr_decodes(*x->Unary_expr, *y->Unary_expr, cx2, cy2);
    cancel(" }"@, s, t);
}

proof fn expr_binary_decodes(x: Expr, y: Expr, s: Seq<char>, t: Seq<char>)
    requires
        x is Binary,
        y is Binary,
        expr_after(x, s) == expr_after(y, t),
        stops(s),
        stops(t),
    ensures
        same_expr(x, y),
        s == t,
    decreases x, 0int,
{
    reveal_strlit(", left: ");
    reveal_strlit(", right: ");
    reveal_strlit(" }");
    let cx3 = " }"@ + s;
    let cy3 = " }"@ + t;
    let ax2 = expr_sealed(*x->Binary_right, cx3);
    let ay2 = expr_sealed(*y->Binary_right, cy3);
    let cx2 = ", right: "@ + ax2;
    let cy2 = ", right: "@ + ay2;
    let ax1 = expr_sealed(*x->Binary_left, cx2);
    let ay1 = expr_sealed(*y->Binary_left, cy2);
    let cx1 = ", left: "@ + ax1;
    let cy1 = ", left: "@ + ay1;
    let ax0 = ast_text::binary_op_put(x->Binary_op, cx1);
    let ay0 = ast_text::binary_op_put(y->Binary_op, cy1);
    cancel(" { op: "@, ax0, ay0);
    binary_op_decodes(x->Binary_op, y->Binary_op, cx1, cy1);
    cancel(", left: "@, ax1, ay1);
    expr_decodes(*x->Binary_left, *y->Binary_left, cx2, cy2);
    cancel(", right: "@, ax2, ay2);
    expr_decodes(*x->Binary_right, *y->Binary_right, cx3, cy3);
    cancel(" }"@, s, t);
}

proof fn expr_is_null_decodes(x: Expr, y: Expr, s: Seq<char>, t: Seq<char>)
    requires
        x is IsNull,
        y is IsNull,
        expr_after(x, s) == expr_after(y, t),
        stops(s),
        stops(t),
    ensures
        same_expr(x, y),
        s == t,
    decreases x, 0int,
{
    reveal_strlit(", negated: ");
    reveal_strlit(" }");
    let cx2 = " }"@ + s;
    let cy2 = " }"@ + t;
    let ax1 = ast_text::flag_put(x->IsNull_negated, cx2);
    let ay1 = ast_text::flag_put(y->IsNull_negated, cy2);
    let cx1 = ", negated: "@ + ax1;
    let cy1 = ", negated: "@ + ay1;
    let ax0 = expr_sealed(*x->IsNull_expr, cx1);
    let ay0 = expr_sealed(*y->IsNull_expr, cy1);
    cancel(" { expr: "@, ax0, ay0);
    expr_decodes(*x->IsNull_expr, *y->IsNull_expr, cx1, cy1);
    cancel(", negated: "@, ax1, ay1);
    flag_decodes(x->IsNull_negated, y->IsNull_negated, cx2, cy2);
    cancel(" }"@, s, t);
}

proof fn expr_call_decodes(x: Expr, y: Expr, s: Seq<char>, t: Seq<char>)
    requires
        x is Call,
        y is Call,
        expr_after(x, s) == expr_after(y, t),
        stops(s),
        stops(t),
    ensures
        same_expr(x, y),
        s == t,
    decreases x, 0int,
{
    reveal_strlit(", args: ");
    reveal_strlit(", distinct: ");
    reveal_strlit(", within_group: ");
    reveal_strlit(", over: ");
    reveal_strlit(" }");
    let cx5 = " }"@ + s;
    let cy5 = " }"@ + t;
    let ax4 = optional_window_spec_sealed(x->Call_over, cx5);
    let ay4 = optional_window_spec_sealed(y->Call_over, cy5);
    let cx4 = ", over: "@ + ax4;
    let cy4 = ", over: "@ + ay4;
    let ax3 = optional_order_item_list_sealed(x->Call_within_group, cx4);
    let ay3 = optional_order_item_list_sealed(y->Call_within_group, cy4);
    let cx3 = ", within_group: "@ + ax3;
    let cy3 = ", within_group: "@ + ay3;
    let ax2 = ast_text::flag_put(x->Call_distinct, cx3);
    let ay2 = ast_text::flag_put(y->Call_distinct, cy3);
    let cx2 = ", distinct: "@ + ax2;
    let cy2 = ", distinct: "@ + ay2;
    let ax1 = expr_list_sealed(x->Call_args@, cx2);
    let ay1 = expr_list_sealed(y->Call_args@, cy2);
    let cx1 = ", args: "@ + ax1;
    let cy1 = ", args: "@ + ay1;
    let ax0 = ast_text::object_name_put(x->Call_name, cx1);
    let ay0 = ast_text::object_name_put(y->Call_name, cy1);
    cancel(" { name: "@, ax0, ay0);
    object_name_decodes(x->Call_name, y->Call_name, cx1, cy1);
    cancel(", args: "@, ax1, ay1);
    expr_list_decodes(x->Call_args@, y->Call_args@, cx2, cy2);
    cancel(", distinct: "@, ax2, ay2);
    flag_decodes(x->Call_distinct, y->Call_distinct, cx3, cy3);
    cancel(", within_group: "@, ax3, ay3);
    optional_order_item_list_decodes(x->Call_within_group, y->Call_within_group, cx4, cy4);
    cancel(", over: "@, ax4, ay4);
    optional_window_spec_decodes(x->Call_over, y->Call_over, cx5, cy5);
    cancel(" }"@, s, t);
}

proof fn expr_cast_decodes(x: Expr, y: Expr, s: Seq<char>, t: Seq<char>)
    requires
        x is Cast,
        y is Cast,
        expr_after(x, s) == expr_after(y, t),
        stops(s),
        stops(t),
    ensures
        same_expr(x, y),
        s == t,
    decreases x, 0int,
{
    reveal_strlit(", target: ");
    reveal_strlit(" }");
    let cx2 = " }"@ + s;
    let cy2 = " }"@ + t;
    let ax1 = ast_text::identifier_put(x->Cast_target, cx2);
    let ay1 = ast_text::identifier_put(y->Cast_target, cy2);
    let cx1 = ", target: "@ + ax1;
    let cy1 = ", target: "@ + ay1;
    let ax0 = expr_sealed(*x->Cast_expr, cx1);
    let ay0 = expr_sealed(*y->Cast_expr, cy1);
    cancel(" { expr: "@, ax0, ay0);
    expr_decodes(*x->Cast_expr, *y->Cast_expr, cx1, cy1);
    cancel(", target: "@, ax1, ay1);
    identifier_decodes(x->Cast_target, y->Cast_target, cx2, cy2);
    cancel(" }"@, s, t);
}

proof fn expr_postfix_cast_decodes(x: Expr, y: Expr, s: Seq<char>, t: Seq<char>)
    requires
        x is PostfixCast,
        y is PostfixCast,
        expr_after(x, s) == expr_after(y, t),
        stops(s),
        stops(t),
    ensures
        same_expr(x, y),
        s == t,
    decreases x, 0int,
{
    reveal_strlit(", target: ");
    reveal_strlit(" }");
    let cx2 = " }"@ + s;
    let cy2 = " }"@ + t;
    let ax1 = ast_text::identifier_put(x->PostfixCast_target, cx2);
    let ay1 = ast_text::identifier_put(y->PostfixCast_target, cy2);
    let cx1 = ", target: "@ + ax1;
    let cy1 = ", target: "@ + ay1;
    let ax0 = expr_sealed(*x->PostfixCast_expr, cx1);
    let ay0 = expr_sealed(*y->PostfixCast_expr, cy1);
    cancel(" { expr: "@, ax0, ay0);
    expr_decodes(*x->PostfixCast_expr, *y->PostfixCast_expr, cx1, cy1);
    cancel(", target: "@, ax1, ay1);
    identifier_decodes(x->PostfixCast_target, y->PostfixCast_target, cx2, cy2);
    cancel(" }"@, s, t);
}

proof fn expr_subquery_decodes(x: Expr, y: Expr, s: Seq<char>, t: Seq<char>)
    requires
        x is Subquery,
        y is Subquery,
        expr_after(x, s) == expr_after(y, t),
        stops(s),
        stops(t),
    ensures
        same_expr(x, y),
        s == t,
    decreases x, 0int,
{
    reveal_strlit(" }");
    let cx1 = " }"@ + s;
    let cy1 = " }"@ + t;
    let ax0 = select_stmt_sealed(*x->Subquery_select, cx1);
    let ay0 = select_stmt_sealed(*y->Subquery_select, cy1);
    cancel(" { select: "@, ax0, ay0);
    select_stmt_decodes(*x->Subquery_select, *y->Subquery_select, cx1, cy1);
    cancel(" }"@, s, t);
}

proof fn expr_exists_decodes(x: Expr, y: Expr, s: Seq<char>, t: Seq<char>)
    requires
        x is Exists,
        y is Exists,
        expr_after(x, s) == expr_after(y, t),
        stops(s),
        stops(t),
    ensures
        same_expr(x, y),
        s == t,
    decreases x, 0int,
{
    reveal_strlit(", negated: ");
    reveal_strlit(" }");
    let cx2 = " }"@ + s;
    let cy2 = " }"@ + t;
    let ax1 = ast_text::flag_put(x->Exists_negated, cx2);
    let ay1 = ast_text::flag_put(y->Exists_negated, cy2);
    let cx1 = ", negated: "@ + ax1;
    let cy1 = ", negated: "@ + ay1;
    let ax0 = select_stmt_sealed(*x->Exists_select, cx1);
    let ay0 = select_stmt_sealed(*y->Exists_select, cy1);
    cancel(" { select: "@, ax0, ay0);
    select_stmt_decodes(*x->Exists_select, *y->Exists_select, cx1, cy1);
    cancel(", negated: "@, ax1, ay1);
    flag_decodes(x->Exists_negated, y->Exists_negated, cx2, cy2);
    cancel(" }"@, s, t);
}

proof fn expr_in_subquery_decodes(x: Expr, y: Expr, s: Seq<char>, t: Seq<char>)
    requires
        x is InSubquery,
        y is InSubquery,
        expr_after(x, s) == expr_after(y, t),
        stops(s),
        stops(t),
    ensures
        same_expr(x, y),
        s == t,
    decreases x, 0int,
{
    reveal_strlit(", select: ");
    reveal_strlit(", negated: ");
    reveal_strlit(" }");
    let cx3 = " }"@ + s;
    let cy3 = " }"@ + t;
    let ax2 = ast_text::flag_put(x->InSubquery_negated, cx3);
    let ay2 = ast_text::flag_put(y->InSubquery_negated, cy3);
    let cx2 = ", negated: "@ + ax2;
    let cy2 = ", negated: "@ + ay2;
    let ax1 = select_stmt_sealed(*x->InSubquery_select, cx2);
    let ay1 = select_stmt_sealed(*y->InSubquery_select, cy2);
    let cx1 = ", select: "@ + ax1;
    let cy1 = ", select: "@ + ay1;
    let ax0 = expr_sealed(*x->InSubquery_expr, cx1);
    let ay0 = expr_sealed(*y->InSubquery_expr, cy1);
    cancel(" { expr: "@, ax0, ay0);
    expr_decodes(*x->InSubquery_expr, *y->InSubquery_expr, cx1, cy1);
    cancel(", select: "@, ax1, ay1);
    select_stmt_decodes(*x->InSubquery_select, *y->InSubquery_select, cx2, cy2);
    cancel(", negated: "@, ax2, ay2);
    flag_decodes(x->InSubquery_negated, y->InSubquery_negated, cx3, cy3);
    cancel(" }"@, s, t);
}

proof fn expr_any_decodes(x: Expr, y: Expr, s: Seq<char>, t: Seq<char>)
    requires
        x is Any,
        y is Any,
        expr_after(x, s) == expr_after(y, t),
        stops(s),
        stops(t),
    ensures
        same_expr(x, y),
        s == t,
    decreases x, 0int,
{
    reveal_strlit(", op: ");
    reveal_strlit(", select: ");
    reveal_strlit(" }");
    let cx3 = " }"@ + s;
    let cy3 = " }"@ + t;
    let ax2 = select_stmt_sealed(*x->Any_select, cx3);
    let ay2 = select_stmt_sealed(*y->Any_select, cy3);
    let cx2 = ", select: "@ + ax2;
    let cy2 = ", select: "@ + ay2;
    let ax1 = ast_text::binary_op_put(x->Any_op, cx2);
    let ay1 = ast_text::binary_op_put(y->Any_op, cy2);
    let cx1 = ", op: "@ + ax1;
    let cy1 = ", op: "@ + ay1;
    let ax0 = expr_sealed(*x->Any_expr, cx1);
    let ay0 = expr_sealed(*y->Any_expr, cy1);
    cancel(" { expr: "@, ax0, ay0);
    expr_decodes(*x->Any_expr, *y->Any_expr, cx1, cy1);
    cancel(", op: "@, ax1, ay1);
    binary_op_decodes(x->Any_op, y->Any_op, cx2, cy2);
    cancel(", select: "@, ax2, ay2);
    select_stmt_decodes(*x->Any_select, *y->Any_select, cx3, cy3);
    cancel(" }"@, s, t);
}

proof fn expr_any_array_decodes(x: Expr, y: Expr, s: Seq<char>, t: Seq<char>)
    requires
        x is AnyArray,
        y is AnyArray,
        expr_after(x, s) == expr_after(y, t),
        stops(s),
        stops(t),
    ensures
        same_expr(x, y),
        s == t,
    decreases x, 0int,
{
    reveal_strlit(", op: ");
    reveal_strlit(", array: ");
    reveal_strlit(" }");
    let cx3 = " }"@ + s;
    let cy3 = " }"@ + t;
    let ax2 = expr_sealed(*x->AnyArray_array, cx3);
    let ay2 = expr_sealed(*y->AnyArray_array, cy3);
    let cx2 = ", array: "@ + ax2;
    let cy2 = ", array: "@ + ay2;
    let ax1 = ast_text::binary_op_put(x->AnyArray_op, cx2);
    let ay1 = ast_text::binary_op_put(y->AnyArray_op, cy2);
    let cx1 = ", op: "@ + ax1;
    let cy1 = ", op: "@ + ay1;
    let ax0 = expr_sealed(*x->AnyArray_expr, cx1);
    let ay0 = expr_sealed(*y->AnyArray_expr, cy1);
    cancel(" { expr: "@, ax0, ay0);
    expr_decodes(*x->AnyArray_expr, *y->AnyArray_expr, cx1, cy1);
    cancel(", op: "@, ax1, ay1);
    binary_op_decodes(x->AnyArray_op, y->AnyArray_op, cx2, cy2);
    cancel(", array: "@, ax2, ay2);
    expr_decodes(*x->AnyArray_array, *y->AnyArray_array, cx3, cy3);
    cancel(" }"@, s, t);
}

proof fn expr_all_decodes(x: Expr, y: Expr, s: Seq<char>, t: Seq<char>)
    requires
        x is All,
        y is All,
        expr_after(x, s) == expr_after(y, t),
        stops(s),
        stops(t),
    ensures
        same_expr(x, y),
        s == t,
    decreases x, 0int,
{
    reveal_strlit(", op: ");
    reveal_strlit(", select: ");
    reveal_strlit(" }");
    let cx3 = " }"@ + s;
    let cy3 = " }"@ + t;
    let ax2 = select_stmt_sealed(*x->All_select, cx3);
    let ay2 = select_stmt_sealed(*y->All_select, cy3);
    let cx2 = ", select: "@ + ax2;
    let cy2 = ", select: "@ + ay2;
    let ax1 = ast_text::binary_op_put(x->All_op, cx2);
    let ay1 = ast_text::binary_op_put(y->All_op, cy2);
    let cx1 = ", op: "@ + ax1;
    let cy1 = ", op: "@ + ay1;
    let ax0 = expr_sealed(*x->All_expr, cx1);
    let ay0 = expr_sealed(*y->All_expr, cy1);
    cancel(" { expr: "@, ax0, ay0);
    expr_decodes(*x->All_expr, *y->All_expr, cx1, cy1);
    cancel(", op: "@, ax1, ay1);
    binary_op_decodes(x->All_op, y->All_op, cx2, cy2);
    cancel(", select: "@, ax2, ay2);
    select_stmt_decodes(*x->All_select, *y->All_select, cx3, cy3);
    cancel(" }"@, s, t);
}

proof fn expr_between_decodes(x: Expr, y: Expr, s: Seq<char>, t: Seq<char>)
    requires
        x is Between,
        y is Between,
        expr_after(x, s) == expr_after(y, t),
        stops(s),
        stops(t),
    ensures
        same_expr(x, y),
        s == t,
    decreases x, 0int,
{
    reveal_strlit(", low: ");
    reveal_strlit(", high: ");
    reveal_strlit(", negated: ");
    reveal_strlit(", symmetric: ");
    reveal_strlit(" }");
    let cx5 = " }"@ + s;
    let cy5 = " }"@ + t;
    let ax4 = ast_text::flag_put(x->Between_symmetric, cx5);
    let ay4 = ast_text::flag_put(y->Between_symmetric, cy5);
    let cx4 = ", symmetric: "@ + ax4;
    let cy4 = ", symmetric: "@ + ay4;
    let ax3 = ast_text::flag_put(x->Between_negated, cx4);
    let ay3 = ast_text::flag_put(y->Between_negated, cy4);
    let cx3 = ", negated: "@ + ax3;
    let cy3 = ", negated: "@ + ay3;
    let ax2 = expr_sealed(*x->Between_high, cx3);
    let ay2 = expr_sealed(*y->Between_high, cy3);
    let cx2 = ", high: "@ + ax2;
    let cy2 = ", high: "@ + ay2;
    let ax1 = expr_sealed(*x->Between_low, cx2);
    let ay1 = expr_sealed(*y->Between_low, cy2);
    let cx1 = ", low: "@ + ax1;
    let cy1 = ", low: "@ + ay1;
    let ax0 = expr_sealed(*x->Between_expr, cx1);
    let ay0 = expr_sealed(*y->Between_expr, cy1);
    cancel(" { expr: "@, ax0, ay0);
    expr_decodes(*x->Between_expr, *y->Between_expr, cx1, cy1);
    cancel(", low: "@, ax1, ay1);
    expr_decodes(*x->Between_low, *y->Between_low, cx2, cy2);
    cancel(", high: "@, ax2, ay2);
    expr_decodes(*x->Between_high, *y->Between_high, cx3, cy3);
    cancel(", negated: "@, ax3, ay3);
    flag_decodes(x->Between_negated, y->Between_negated, cx4, cy4);
    cancel(", symmetric: "@, ax4, ay4);
    flag_decodes(x->Between_symmetric, y->Between_symmetric, cx5, cy5);
    cancel(" }"@, s, t);
}

proof fn expr_in_list_decodes(x: Expr, y: Expr, s: Seq<char>, t: Seq<char>)
    requires
        x is InList,
        y is InList,
        expr_after(x, s) == expr_after(y, t),
        stops(s),
        stops(t),
    ensures
        same_expr(x, y),
        s == t,
    decreases x, 0int,
{
    reveal_strlit(", items: ");
    reveal_strlit(", negated: ");
    reveal_strlit(" }");
    let cx3 = " }"@ + s;
    let cy3 = " }"@ + t;
    let ax2 = ast_text::flag_put(x->InList_negated, cx3);
    let ay2 = ast_text::flag_put(y->InList_negated, cy3);
    let cx2 = ", negated: "@ + ax2;
    let cy2 = ", negated: "@ + ay2;
    let ax1 = expr_list_sealed(x->InList_items@, cx2);
    let ay1 = expr_list_sealed(y->InList_items@, cy2);
    let cx1 = ", items: "@ + ax1;
    let cy1 = ", items: "@ + ay1;
    let ax0 = expr_sealed(*x->InList_expr, cx1);
    let ay0 = expr_sealed(*y->InList_expr, cy1);
    cancel(" { expr: "@, ax0, ay0);
    expr_decodes(*x->InList_expr, *y->InList_expr, cx1, cy1);
    cancel(", items: "@, ax1, ay1);
    expr_list_decodes(x->InList_items@, y->InList_items@, cx2, cy2);
    cancel(", negated: "@, ax2, ay2);
    flag_decodes(x->InList_negated, y->InList_negated, cx3, cy3);
    cancel(" }"@, s, t);
}

proof fn expr_case_decodes(x: Expr, y: Expr, s: Seq<char>, t: Seq<char>)
    requires
        x is Case,
        y is Case,
        expr_after(x, s) == expr_after(y, t),
        stops(s),
        stops(t),
    ensures
        same_expr(x, y),
        s == t,
    decreases x, 0int,
{
    reveal_strlit(", branches: ");
    reveal_strlit(", else_expr: ");
    reveal_strlit(" }");
    let cx3 = " }"@ + s;
    let cy3 = " }"@ + t;
    let ax2 = optional_boxed_expr_sealed(x->Case_else_expr, cx3);
    let ay2 = optional_boxed_expr_sealed(y->Case_else_expr, cy3);
    let cx2 = ", else_expr: "@ + ax2;
    let cy2 = ", else_expr: "@ + ay2;
    let ax1 = branch_list_sealed(x->Case_branches@, cx2);
    let ay1 = branch_list_sealed(y->Case_branches@, cy2);
    let cx1 = ", branches: "@ + ax1;
    let cy1 = ", branches: "@ + ay1;
    let ax0 = optional_boxed_expr_sealed(x->Case_operand, cx1);
    let ay0 = optional_boxed_expr_sealed(y->Case_operand, cy1);
    cancel(" { operand: "@, ax0, ay0);
    optional_boxed_expr_decodes(x->Case_operand, y->Case_operand, cx1, cy1);
    cancel(", branches: "@, ax1, ay1);
    branch_list_decodes(x->Case_branches@, y->Case_branches@, cx2, cy2);
    cancel(", else_expr: "@, ax2, ay2);
    optional_boxed_expr_decodes(x->Case_else_expr, y->Case_else_expr, cx3, cy3);
    cancel(" }"@, s, t);
}

proof fn expr_coalesce_decodes(x: Expr, y: Expr, s: Seq<char>, t: Seq<char>)
    requires
        x is Coalesce,
        y is Coalesce,
        expr_after(x, s) == expr_after(y, t),
        stops(s),
        stops(t),
    ensures
        same_expr(x, y),
        s == t,
    decreases x, 0int,
{
    reveal_strlit(" }");
    let cx1 = " }"@ + s;
    let cy1 = " }"@ + t;
    let ax0 = expr_list_sealed(x->Coalesce_args@, cx1);
    let ay0 = expr_list_sealed(y->Coalesce_args@, cy1);
    cancel(" { args: "@, ax0, ay0);
    expr_list_decodes(x->Coalesce_args@, y->Coalesce_args@, cx1, cy1);
    cancel(" }"@, s, t);
}

proof fn expr_null_if_decodes(x: Expr, y: Expr, s: Seq<char>, t: Seq<char>)
    requires
        x is NullIf,
        y is NullIf,
        expr_after(x, s) == expr_after(y, t),
        stops(s),
        stops(t),
    ensures
        same_expr(x, y),
        s == t,
    decreases x, 0int,
{
    reveal_strlit(", b: ");
    reveal_strlit(" }");
    let cx2 = " }"@ + s;
    let cy2 = " }"@ + t;
    let ax1 = expr_sealed(*x->NullIf_b, cx2);
    let ay1 = expr_sealed(*y->NullIf_b, cy2);
    let cx1 = ", b: "@ + ax1;
    let cy1 = ", b: "@ + ay1;
    let ax0 = expr_sealed(*x->NullIf_a, cx1);
    let ay0 = expr_sealed(*y->NullIf_a, cy1);
    cancel(" { a: "@, ax0, ay0);
    expr_decodes(*x->NullIf_a, *y->NullIf_a, cx1, cy1);
    cancel(", b: "@, ax1, ay1);
    expr_decodes(*x->NullIf_b, *y->NullIf_b, cx2, cy2);
    cancel(" }"@, s, t);
}

proof fn expr_greatest_decodes(x: Expr, y: Expr, s: Seq<char>, t: Seq<char>)
    requires
        x is Greatest,
        y is Greatest,
        expr_after(x, s) == expr_after(y, t),
        stops(s),
        stops(t),
    ensures
        same_expr(x, y),
        s == t,
    decreases x, 0int,
{
    reveal_strlit(" }");
    let cx1 = " }"@ + s;
    let cy1 = " }"@ + t;
    let ax0 = expr_list_sealed(x->Greatest_args@, cx1);
    let ay0 = expr_list_sealed(y->Greatest_args@, cy1);
    cancel(" { args: "@, ax0, ay0);
    expr_list_decodes(x->Greatest_args@, y->Greatest_args@, cx1, cy1);
    cancel(" }"@, s, t);
}

proof fn expr_least_decodes(x: Expr, y: Expr, s: Seq<char>, t: Seq<char>)
    requires
        x is Least,
        y is Least,
        expr_after(x, s) == expr_after(y, t),
        stops(s),
        stops(t),
    ensures
        same_expr(x, y),
        s == t,
    decreases x, 0int,
{
    reveal_strlit(" }");
    let cx1 = " }"@ + s;
    let cy1 = " }"@ + t;
    let ax0 = expr_list_sealed(x->Least_args@, cx1);
    let ay0 = expr_list_sealed(y->Least_args@, cy1);
    cancel(" { args: "@, ax0, ay0);
    expr_list_decodes(x->Least_args@, y->Least_args@, cx1, cy1);
    cancel(" }"@, s, t);
}

proof fn expr_is_boolean_decodes(x: Expr, y: Expr, s: Seq<char>, t: Seq<char>)
    requires
        x is IsBoolean,
        y is IsBoolean,
        expr_after(x, s) == expr_after(y, t),
        stops(s),
        stops(t),
    ensures
        same_expr(x, y),
        s == t,
    decreases x, 0int,
{
    reveal_strlit(", value: ");
    reveal_strlit(", is_unknown: ");
    reveal_strlit(", negated: ");
    reveal_strlit(" }");
    let cx4 = " }"@ + s;
    let cy4 = " }"@ + t;
    let ax3 = ast_text::flag_put(x->IsBoolean_negated, cx4);
    let ay3 = ast_text::flag_put(y->IsBoolean_negated, cy4);
    let cx3 = ", negated: "@ + ax3;
    let cy3 = ", negated: "@ + ay3;
    let ax2 = ast_text::flag_put(x->IsBoolean_is_unknown, cx3);
    let ay2 = ast_text::flag_put(y->IsBoolean_is_unknown, cy3);
    let cx2 = ", is_unknown: "@ + ax2;
    let cy2 = ", is_unknown: "@ + ay2;
    let ax1 = ast_text::flag_put(x->IsBoolean_value, cx2);
    let ay1 = ast_text::flag_put(y->IsBoolean_value, cy2);
    let cx1 = ", value: "@ + ax1;
    let cy1 = ", value: "@ + ay1;
    let ax0 = expr_sealed(*x->IsBoolean_expr, cx1);
    let ay0 = expr_sealed(*y->IsBoolean_expr, cy1);
    cancel(" { expr: "@, ax0, ay0);
    expr_decodes(*x->IsBoolean_expr, *y->IsBoolean_expr, cx1, cy1);
    cancel(", value: "@, ax1, ay1);
    flag_decodes(x->IsBoolean_value, y->IsBoolean_value, cx2, cy2);
    cancel(", is_unknown: "@, ax2, ay2);
    flag_decodes(x->IsBoolean_is_unknown, y->IsBoolean_is_unknown, cx3, cy3);
    cancel(", negated: "@, ax3, ay3);
    flag_decodes(x->IsBoolean_negated, y->IsBoolean_negated, cx4, cy4);
    cancel(" }"@, s, t);
}

proof fn expr_is_distinct_from_decodes(x: Expr, y: Expr, s: Seq<char>, t: Seq<char>)
    requires
        x is IsDistinctFrom,
        y is IsDistinctFrom,
        expr_after(x, s) == expr_after(y, t),
        stops(s),
        stops(t),
    ensures
        same_expr(x, y),
        s == t,
    decreases x, 0int,
{
    reveal_strlit(", right: ");
    reveal_strlit(", negated: ");
    reveal_strlit(" }");
    let cx3 = " }"@ + s;
    let cy3 = " }"@ + t;
    let ax2 = ast_text::flag_put(x->IsDistinctFrom_negated, cx3);
    let ay2 = ast_text::flag_put(y->IsDistinctFrom_negated, cy3);
    let cx2 = ", negated: "@ + ax2;
    let cy2 = ", negated: "@ + ay2;
    let ax1 = expr_sealed(*x->IsDistinctFrom_right, cx2);
    let ay1 = expr_sealed(*y->IsDistinctFrom_right, cy2);
    let cx1 = ", right: "@ + ax1;
    let cy1 = ", right: "@ + ay1;
    let ax0 = expr_sealed(*x->IsDistinctFrom_left, cx1);
    let ay0 = expr_sealed(*y->IsDistinctFrom_left, cy1);
    cancel(" { left: "@, ax0, ay0);
    expr_decodes(*x->IsDistinctFrom_left, *y->IsDistinctFrom_left, cx1, cy1);
    cancel(", right: "@, ax1, ay1);
    expr_decodes(*x->IsDistinctFrom_right, *y->IsDistinctFrom_right, cx2, cy2);
    cancel(", negated: "@, ax2, ay2);
    flag_decodes(x->IsDistinctFrom_negated, y->IsDistinctFrom_negated, cx3, cy3);
    cancel(" }"@, s, t);
}

proof fn expr_row_decodes(x: Expr, y: Expr, s: Seq<char>, t: Seq<char>)
    requires
        x is Row,
        y is Row,
        expr_after(x, s) == expr_after(y, t),
        stops(s),
        stops(t),
    ensures
        same_expr(x, y),
        s == t,
    decreases x, 0int,
{
    reveal_strlit(" }");
    let cx1 = " }"@ + s;
    let cy1 = " }"@ + t;
    let ax0 = expr_list_sealed(x->Row_fields@, cx1);
    let ay0 = expr_list_sealed(y->Row_fields@, cy1);
    cancel(" { fields: "@, ax0, ay0);
    expr_list_decodes(x->Row_fields@, y->Row_fields@, cx1, cy1);
    cancel(" }"@, s, t);
}

proof fn expr_array_literal_decodes(x: Expr, y: Expr, s: Seq<char>, t: Seq<char>)
    requires
        x is ArrayLiteral,
        y is ArrayLiteral,
        expr_after(x, s) == expr_after(y, t),
        stops(s),
        stops(t),
    ensures
        same_expr(x, y),
        s == t,
    decreases x, 0int,
{
    reveal_strlit(" }");
    let cx1 = " }"@ + s;
    let cy1 = " }"@ + t;
    let ax0 = expr_list_sealed(x->ArrayLiteral_elements@, cx1);
    let ay0 = expr_list_sealed(y->ArrayLiteral_elements@, cy1);
    cancel(" { elements: "@, ax0, ay0);
    expr_list_decodes(x->ArrayLiteral_elements@, y->ArrayLiteral_elements@, cx1, cy1);
    cancel(" }"@, s, t);
}

proof fn expr_array_subscript_decodes(x: Expr, y: Expr, s: Seq<char>, t: Seq<char>)
    requires
        x is ArraySubscript,
        y is ArraySubscript,
        expr_after(x, s) == expr_after(y, t),
        stops(s),
        stops(t),
    ensures
        same_expr(x, y),
        s == t,
    decreases x, 0int,
{
    reveal_strlit(", index: ");
    reveal_strlit(" }");
    let cx2 = " }"@ + s;
    let cy2 = " }"@ + t;
    let ax1 = expr_sealed(*x->ArraySubscript_index, cx2);
    let ay1 = expr_sealed(*y->ArraySubscript_index, cy2);
    let cx1 = ", index: "@ + ax1;
    let cy1 = ", index: "@ + ay1;
    let ax0 = expr_sealed(*x->ArraySubscript_expr, cx1);
    let ay0 = expr_sealed(*y->ArraySubscript_expr, cy1);
    cancel(" { expr: "@, ax0, ay0);
    expr_decodes(*x->ArraySubscript_expr, *y->ArraySubscript_expr, cx1, cy1);
    cancel(", index: "@, ax1, ay1);
    expr_decodes(*x->ArraySubscript_index, *y->ArraySubscript_index, cx2, cy2);
    cancel(" }"@, s, t);
}

proof fn expr_array_slice_decodes(x: Expr, y: Expr, s: Seq<char>, t: Seq<char>)
    requires
        x is ArraySlice,
        y is ArraySlice,
        expr_after(x, s) == expr_after(y, t),
        stops(s),
        stops(t),
    ensures
        same_expr(x, y),
        s == t,
    decreases x, 0int,
{
    reveal_strlit(", lower: ");
    reveal_strlit(", upper: ");
    reveal_strlit(" }");
    let cx3 = " }"@ + s;
    let cy3 = " }"@ + t;
    let ax2 = optional_boxed_expr_sealed(x->ArraySlice_upper, cx3);
    let ay2 = optional_boxed_expr_sealed(y->ArraySlice_upper, cy3);
    let cx2 = ", upper: "@ + ax2;
    let cy2 = ", upper: "@ + ay2;
    let ax1 = optional_boxed_expr_sealed(x->ArraySlice_lower, cx2);
    let ay1 = optional_boxed_expr_sealed(y->ArraySlice_lower, cy2);
    let cx1 = ", lower: "@ + ax1;
    let cy1 = ", lower: "@ + ay1;
    let ax0 = expr_sealed(*x->ArraySlice_expr, cx1);
    let ay0 = expr_sealed(*y->ArraySlice_expr, cy1);
    cancel(" { expr: "@, ax0, ay0);
    expr_decodes(*x->ArraySlice_expr, *y->ArraySlice_expr, cx1, cy1);
    cancel(", lower: "@, ax1, ay1);
    optional_boxed_expr_decodes(x->ArraySlice_lower, y->ArraySlice_lower, cx2, cy2);
    cancel(", upper: "@, ax2, ay2);
    optional_boxed_expr_decodes(x->ArraySlice_upper, y->ArraySlice_upper, cx3, cy3);
    cancel(" }"@, s, t);
}

proof fn expr_collate_decodes(x: Expr, y: Expr, s: Seq<char>, t: Seq<char>)
    requires
        x is Collate,
        y is Collate,
        expr_after(x, s) == expr_after(y, t),
        stops(s),
        stops(t),
    ensures
        same_expr(x, y),
        s == t,
    decreases x, 0int,
{
    reveal_strlit(", collation: ");
    reveal_strlit(" }");
    let cx2 = " }"@ + s;
    let cy2 = " }"@ + t;
    let ax1 = ast_text::object_name_put(x->Collate_collation, cx2);
    let ay1 = ast_text::object_name_put(y->Collate_collation, cy2);
    let cx1 = ", collation: "@ + ax1;
    let cy1 = ", collation: "@ + ay1;
    let ax0 = expr_sealed(*x->Collate_expr, cx1);
    let ay0 = expr_sealed(*y->Collate_expr, cy1);
    cancel(" { expr: "@, ax0, ay0);
    expr_decodes(*x->Collate_expr, *y->Collate_expr, cx1, cy1);
    cancel(", collation: "@, ax1, ay1);
    object_name_decodes(x->Collate_collation, y->Collate_collation, cx2, cy2);
    cancel(" }"@, s, t);
}

proof fn expr_at_time_zone_decodes(x: Expr, y: Expr, s: Seq<char>, t: Seq<char>)
    requires
        x is AtTimeZone,
        y is AtTimeZone,
        expr_after(x, s) == expr_after(y, t),
        stops(s),
        stops(t),
    ensures
        same_expr(x, y),
        s == t,
    decreases x, 0int,
{
    reveal_strlit(", zone: ");
    reveal_strlit(" }");
    let cx2 = " }"@ + s;
    let cy2 = " }"@ + t;
    let ax1 = expr_sealed(*x->AtTimeZone_zone, cx2);
    let ay1 = expr_sealed(*y->AtTimeZone_zone, cy2);
    let cx1 = ", zone: "@ + ax1;
    let cy1 = ", zone: "@ + ay1;
    let ax0 = expr_sealed(*x->AtTimeZone_expr, cx1);
    let ay0 = expr_sealed(*y->AtTimeZone_expr, cy1);
    cancel(" { expr: "@, ax0, ay0);
    expr_decodes(*x->AtTimeZone_expr, *y->AtTimeZone_expr, cx1, cy1);
    cancel(", zone: "@, ax1, ay1);
    expr_decodes(*x->AtTimeZone_zone, *y->AtTimeZone_zone, cx2, cy2);
    cancel(" }"@, s, t);
}

proof fn expr_decodes(x: Expr, y: Expr, s: Seq<char>, t: Seq<char>)
    requires
        expr_sealed(x, s) == expr_sealed(y, t),
        stops(s),
        stops(t),
    ensures
        same_expr(x, y),
        s == t,
    decreases x, 1int,
{
    expr_unfolds(x, s);
    expr_unfolds(y, t);
    expr_tag_ends(x, s);
    expr_tag_ends(y, t);
    expr_tags_are_words(x);
    expr_tags_are_words(y);
    words_split(ast_text::expr_tag(x), expr_after(x, s), ast_text::expr_tag(y), expr_after(y, t));
    match x {
        Expr::Literal(_) => {
            expr_literal_decodes(x, y, s, t);
        },
        Expr::Column { .. } => {
            expr_column_decodes(x, y, s, t);
        },
        Expr::Parameter { .. } => {
            expr_parameter_decodes(x, y, s, t);
        },
        Expr::Paren { .. } => {
            expr_paren_decodes(x, y, s, t);
        },
        Expr::Unary { .. } => {
            expr_unary_decodes(x, y, s, t);
        },
        Expr::Binary { .. } => {
            expr_binary_decodes(x, y, s, t);
        },
        Expr::IsNull { .. } => {
            expr_is_null_decodes(x, y, s, t);
        },
        Expr::Call { .. } => {
            expr_call_decodes(x, y, s, t);
        },
        Expr::Cast { .. } => {
            expr_cast_decodes(x, y, s, t);
        },
        Expr::PostfixCast { .. } => {
            expr_postfix_cast_decodes(x, y, s, t);
        },
        Expr::Subquery { .. } => {
            expr_subquery_decodes(x, y, s, t);
        },
        Expr::Exists { .. } => {
            expr_exists_decodes(x, y, s, t);
        },
        Expr::InSubquery { .. } => {
            expr_in_subquery_decodes(x, y, s, t);
        },
        Expr::Any { .. } => {
            expr_any_decodes(x, y, s, t);
        },
        Expr::AnyArray { .. } => {
            expr_any_array_decodes(x, y, s, t);
        },
        Expr::All { .. } => {
            expr_all_decodes(x, y, s, t);
        },
        Expr::Between { .. } => {
            expr_between_decodes(x, y, s, t);
        },
        Expr::InList { .. } => {
            expr_in_list_decodes(x, y, s, t);
        },
        Expr::Case { .. } => {
            expr_case_decodes(x, y, s, t);
        },
        Expr::Coalesce { .. } => {
            expr_coalesce_decodes(x, y, s, t);
        },
        Expr::NullIf { .. } => {
            expr_null_if_decodes(x, y, s, t);
        },
        Expr::Greatest { .. } => {
            expr_greatest_decodes(x, y, s, t);
        },
        Expr::Least { .. } => {
            expr_least_decodes(x, y, s, t);
        },
        Expr::IsBoolean { .. } => {
            expr_is_boolean_decodes(x, y, s, t);
        },
        Expr::IsDistinctFrom { .. } => {
            expr_is_distinct_from_decodes(x, y, s, t);
        },
        Expr::Row { .. } => {
            expr_row_decodes(x, y, s, t);
        },
        Expr::ArrayLiteral { .. } => {
            expr_array_literal_decodes(x, y, s, t);
        },
        Expr::ArraySubscript { .. } => {
            expr_array_subscript_decodes(x, y, s, t);
        },
        Expr::ArraySlice { .. } => {
            expr_array_slice_decodes(x, y, s, t);
        },
        Expr::Collate { .. } => {
            expr_collate_decodes(x, y, s, t);
        },
        Expr::AtTimeZone { .. } => {
            expr_at_time_zone_decodes(x, y, s, t);
        },
        Expr::Default => {},
    }
}

spec fn select_item_variant(x: SelectItem) -> int {
    match x {
        SelectItem::Wildcard => 0,
        SelectItem::QualifiedWildcard { .. } => 1,
        SelectItem::Expr { .. } => 2,
    }
}

spec fn select_item_named(tag: Seq<char>) -> int {
    if tag == "Wildcard"@ {
        0
    } else if tag == "QualifiedWildcard"@ {
        1
    } else {
        2
    }
}

#[verifier::rlimit(40)]
proof fn select_item_tags_are_words(x: SelectItem)
    ensures
        word(ast_text::select_item_tag(x)),
        select_item_named(ast_text::select_item_tag(x)) == select_item_variant(x),
{
    reveal_strlit("Wildcard");
    reveal_strlit("QualifiedWildcard");
    reveal_strlit("Expr");
    assert("Wildcard"@.len() == 8);
    assert("Wildcard"@[0] == 'W' && "Wildcard"@[1] == 'i' && "Wildcard"@[2] == 'l'
        && "Wildcard"@[3] == 'd' && "Wildcard"@[4] == 'c' && "Wildcard"@[5] == 'a'
        && "Wildcard"@[6] == 'r' && "Wildcard"@[7] == 'd');
    assert("QualifiedWildcard"@.len() == 17);
    assert("QualifiedWildcard"@[0] == 'Q' && "QualifiedWildcard"@[1] == 'u'
        && "QualifiedWildcard"@[2] == 'a' && "QualifiedWildcard"@[3] == 'l'
        && "QualifiedWildcard"@[4] == 'i' && "QualifiedWildcard"@[5] == 'f'
        && "QualifiedWildcard"@[6] == 'i' && "QualifiedWildcard"@[7] == 'e'
        && "QualifiedWildcard"@[8] == 'd' && "QualifiedWildcard"@[9] == 'W'
        && "QualifiedWildcard"@[10] == 'i' && "QualifiedWildcard"@[11] == 'l'
        && "QualifiedWildcard"@[12] == 'd' && "QualifiedWildcard"@[13] == 'c'
        && "QualifiedWildcard"@[14] == 'a' && "QualifiedWildcard"@[15] == 'r'
        && "QualifiedWildcard"@[16] == 'd');
    assert("Expr"@.len() == 4);
    assert("Expr"@[0] == 'E' && "Expr"@[1] == 'x' && "Expr"@[2] == 'p' && "Expr"@[3] == 'r');
}

proof fn select_item_starts(x: SelectItem, s: Seq<char>)
    ensures
        select_item_sealed(x, s).len() > 0,
        word_char(select_item_sealed(x, s)[0]),
{
    select_item_unfolds(x, s);
    select_item_tags_are_words(x);
    assert(select_item_sealed(x, s)[0] == ast_text::select_item_tag(x)[0]);
}

proof fn select_item_tag_ends(x: SelectItem, s: Seq<char>)
    requires
        stops(s),
    ensures
        stops(select_item_after(x, s)),
{
    reveal_strlit(" { qualifier: ");
    reveal_strlit(" { expr: ");
}

proof fn select_item_qualified_wildcard_decodes(
    x: SelectItem,
    y: SelectItem,
    s: Seq<char>,
    t: Seq<char>,
)
    requires
        x is QualifiedWildcard,
        y is QualifiedWildcard,
        select_item_after(x, s) == select_item_after(y, t),
        stops(s),
        stops(t),
    ensures
        same_select_item(x, y),
        s == t,
    decreases x, 0int,
{
    reveal_strlit(" }");
    let cx1 = " }"@ + s;
    let cy1 = " }"@ + t;
    let ax0 = ast_text::identifier_put(x->QualifiedWildcard_qualifier, cx1);
    let ay0 = ast_text::identifier_put(y->QualifiedWildcard_qualifier, cy1);
    cancel(" { qualifier: "@, ax0, ay0);
    identifier_decodes(x->QualifiedWildcard_qualifier, y->QualifiedWildcard_qualifier, cx1, cy1);
    cancel(" }"@, s, t);
}

proof fn select_item_expr_decodes(x: SelectItem, y: SelectItem, s: Seq<char>, t: Seq<char>)
    requires
        x is Expr,
        y is Expr,
        select_item_after(x, s) == select_item_after(y, t),
        stops(s),
        stops(t),
    ensures
        same_select_item(x, y),
        s == t,
    decreases x, 0int,
{
    reveal_strlit(", alias: ");
    reveal_strlit(" }");
    let cx2 = " }"@ + s;
    let cy2 = " }"@ + t;
    let ax1 = ast_text::optional_identifier_put(x->Expr_alias, cx2);
    let ay1 = ast_text::optional_identifier_put(y->Expr_alias, cy2);
    let cx1 = ", alias: "@ + ax1;
    let cy1 = ", alias: "@ + ay1;
    let ax0 = expr_sealed(x->Expr_expr, cx1);
    let ay0 = expr_sealed(y->Expr_expr, cy1);
    cancel(" { expr: "@, ax0, ay0);
    expr_decodes(x->Expr_expr, y->Expr_expr, cx1, cy1);
    cancel(", alias: "@, ax1, ay1);
    optional_identifier_decodes(x->Expr_alias, y->Expr_alias, cx2, cy2);
    cancel(" }"@, s, t);
}

proof fn select_item_decodes(x: SelectItem, y: SelectItem, s: Seq<char>, t: Seq<char>)
    requires
        select_item_sealed(x, s) == select_item_sealed(y, t),
        stops(s),
        stops(t),
    ensures
        same_select_item(x, y),
        s == t,
    decreases x, 1int,
{
    select_item_unfolds(x, s);
    select_item_unfolds(y, t);
    select_item_tag_ends(x, s);
    select_item_tag_ends(y, t);
    select_item_tags_are_words(x);
    select_item_tags_are_words(y);
    words_split(
        ast_text::select_item_tag(x),
        select_item_after(x, s),
        ast_text::select_item_tag(y),
        select_item_after(y, t),
    );
    match x {
        SelectItem::Wildcard => {},
        SelectItem::QualifiedWildcard { .. } => {
            select_item_qualified_wildcard_decodes(x, y, s, t);
        },
        SelectItem::Expr { .. } => {
            select_item_expr_decodes(x, y, s, t);
        },
    }
}

spec fn distinct_variant(x: Distinct) -> int {
    match x {
        Distinct::Absent => 0,
        Distinct::All => 1,
        Distinct::Distinct => 2,
        Distinct::On(_) => 3,
    }
}

spec fn distinct_named(tag: Seq<char>) -> int {
    if tag == "Absent"@ {
        0
    } else if tag == "All"@ {
        1
    } else if tag == "Distinct"@ {
        2
    } else {
        3
    }
}

#[verifier::rlimit(40)]
proof fn distinct_tags_are_words(x: Distinct)
    ensures
        word(ast_text::distinct_tag(x)),
        distinct_named(ast_text::distinct_tag(x)) == distinct_variant(x),
{
    reveal_strlit("Absent");
    reveal_strlit("All");
    reveal_strlit("Distinct");
    reveal_strlit("On");
    assert("Absent"@.len() == 6);
    assert("Absent"@[0] == 'A' && "Absent"@[1] == 'b' && "Absent"@[2] == 's'
        && "Absent"@[3] == 'e' && "Absent"@[4] == 'n' && "Absent"@[5] == 't');
    assert("All"@.len() == 3);
    assert("All"@[0] == 'A' && "All"@[1] == 'l' && "All"@[2] == 'l');
    assert("Distinct"@.len() == 8);
    assert("Distinct"@[0] == 'D' && "Distinct"@[1] == 'i' && "Distinct"@[2] == 's'
        && "Distinct"@[3] == 't' && "Distinct"@[4] == 'i' && "Distinct"@[5] == 'n'
        && "Distinct"@[6] == 'c' && "Distinct"@[7] == 't');
    assert("On"@.len() == 2);
    assert("On"@[0] == 'O' && "On"@[1] == 'n');
}

proof fn distinct_tag_ends(x: Distinct, s: Seq<char>)
    requires
        stops(s),
    ensures
        stops(distinct_after(x, s)),
{
    reveal_strlit("(");
}

proof fn distinct_on_decodes(x: Distinct, y: Distinct, s: Seq<char>, t: Seq<char>)
    requires
        x is On,
        y is On,
        distinct_after(x, s) == distinct_after(y, t),
        stops(s),
        stops(t),
    ensures
        same_distinct(x, y),
        s == t,
    decreases x, 0int,
{
    reveal_strlit(")");
    let cx1 = ")"@ + s;
    let cy1 = ")"@ + t;
    let ax0 = expr_list_sealed(x->On_0@, cx1);
    let ay0 = expr_list_sealed(y->On_0@, cy1);
    cancel("("@, ax0, ay0);
    expr_list_decodes(x->On_0@, y->On_0@, cx1, cy1);
    cancel(")"@, s, t);
}

proof fn distinct_decodes(x: Distinct, y: Distinct, s: Seq<char>, t: Seq<char>)
    requires
        distinct_sealed(x, s) == distinct_sealed(y, t),
        stops(s),
        stops(t),
    ensures
        same_distinct(x, y),
        s == t,
    decreases x, 1int,
{
    distinct_unfolds(x, s);
    distinct_unfolds(y, t);
    distinct_tag_ends(x, s);
    distinct_tag_ends(y, t);
    distinct_tags_are_words(x);
    distinct_tags_are_words(y);
    words_split(
        ast_text::distinct_tag(x),
        distinct_after(x, s),
        ast_text::distinct_tag(y),
        distinct_after(y, t),
    );
    match x {
        Distinct::Absent => {},
        Distinct::All => {},
        Distinct::Distinct => {},
        Distinct::On(_) => {
            distinct_on_decodes(x, y, s, t);
        },
    }
}

spec fn join_condition_variant(x: JoinCondition) -> int {
    match x {
        JoinCondition::Absent => 0,
        JoinCondition::On(_) => 1,
        JoinCondition::Using(_) => 2,
    }
}

spec fn join_condition_named(tag: Seq<char>) -> int {
    if tag == "Absent"@ {
        0
    } else if tag == "On"@ {
        1
    } else {
        2
    }
}

#[verifier::rlimit(40)]
proof fn join_condition_tags_are_words(x: JoinCondition)
    ensures
        word(ast_text::join_condition_tag(x)),
        join_condition_named(ast_text::join_condition_tag(x)) == join_condition_variant(x),
{
    reveal_strlit("Absent");
    reveal_strlit("On");
    reveal_strlit("Using");
    assert("Absent"@.len() == 6);
    assert("Absent"@[0] == 'A' && "Absent"@[1] == 'b' && "Absent"@[2] == 's'
        && "Absent"@[3] == 'e' && "Absent"@[4] == 'n' && "Absent"@[5] == 't');
    assert("On"@.len() == 2);
    assert("On"@[0] == 'O' && "On"@[1] == 'n');
    assert("Using"@.len() == 5);
    assert("Using"@[0] == 'U' && "Using"@[1] == 's' && "Using"@[2] == 'i' && "Using"@[3] == 'n'
        && "Using"@[4] == 'g');
}

proof fn join_condition_tag_ends(x: JoinCondition, s: Seq<char>)
    requires
        stops(s),
    ensures
        stops(join_condition_after(x, s)),
{
    reveal_strlit("(");
}

proof fn join_condition_on_decodes(x: JoinCondition, y: JoinCondition, s: Seq<char>, t: Seq<char>)
    requires
        x is On,
        y is On,
        join_condition_after(x, s) == join_condition_after(y, t),
        stops(s),
        stops(t),
    ensures
        same_join_condition(x, y),
        s == t,
    decreases x, 0int,
{
    reveal_strlit(")");
    let cx1 = ")"@ + s;
    let cy1 = ")"@ + t;
    let ax0 = expr_sealed(x->On_0, cx1);
    let ay0 = expr_sealed(y->On_0, cy1);
    cancel("("@, ax0, ay0);
    expr_decodes(x->On_0, y->On_0, cx1, cy1);
    cancel(")"@, s, t);
}

proof fn join_condition_using_decodes(
    x: JoinCondition,
    y: JoinCondition,
    s: Seq<char>,
    t: Seq<char>,
)
    requires
        x is Using,
        y is Using,
        join_condition_after(x, s) == join_condition_after(y, t),
        stops(s),
        stops(t),
    ensures
        same_join_condition(x, y),
        s == t,
    decreases x, 0int,
{
    reveal_strlit(")");
    let cx1 = ")"@ + s;
    let cy1 = ")"@ + t;
    let ax0 = ast_text::identifier_list_put(x->Using_0@, cx1);
    let ay0 = ast_text::identifier_list_put(y->Using_0@, cy1);
    cancel("("@, ax0, ay0);
    identifier_list_decodes(x->Using_0@, y->Using_0@, cx1, cy1);
    cancel(")"@, s, t);
}

proof fn join_condition_decodes(x: JoinCondition, y: JoinCondition, s: Seq<char>, t: Seq<char>)
    requires
        join_condition_sealed(x, s) == join_condition_sealed(y, t),
        stops(s),
        stops(t),
    ensures
        same_join_condition(x, y),
        s == t,
    decreases x, 1int,
{
    join_condition_unfolds(x, s);
    join_condition_unfolds(y, t);
    join_condition_tag_ends(x, s);
    join_condition_tag_ends(y, t);
    join_condition_tags_are_words(x);
    join_condition_tags_are_words(y);
    words_split(
        ast_text::join_condition_tag(x),
        join_condition_after(x, s),
        ast_text::join_condition_tag(y),
        join_condition_after(y, t),
    );
    match x {
        JoinCondition::Absent => {},
        JoinCondition::On(_) => {
            join_condition_on_decodes(x, y, s, t);
        },
        JoinCondition::Using(_) => {
            join_condition_using_decodes(x, y, s, t);
        },
    }
}

spec fn table_ref_variant(x: TableRef) -> int {
    match x {
        TableRef::Named { .. } => 0,
        TableRef::Subquery { .. } => 1,
        TableRef::Join { .. } => 2,
    }
}

spec fn table_ref_named(tag: Seq<char>) -> int {
    if tag == "Named"@ {
        0
    } else if tag == "Subquery"@ {
        1
    } else {
        2
    }
}

#[verifier::rlimit(40)]
proof fn table_ref_tags_are_words(x: TableRef)
    ensures
        word(ast_text::table_ref_tag(x)),
        table_ref_named(ast_text::table_ref_tag(x)) == table_ref_variant(x),
{
    reveal_strlit("Named");
    reveal_strlit("Subquery");
    reveal_strlit("Join");
    assert("Named"@.len() == 5);
    assert("Named"@[0] == 'N' && "Named"@[1] == 'a' && "Named"@[2] == 'm' && "Named"@[3] == 'e'
        && "Named"@[4] == 'd');
    assert("Subquery"@.len() == 8);
    assert("Subquery"@[0] == 'S' && "Subquery"@[1] == 'u' && "Subquery"@[2] == 'b'
        && "Subquery"@[3] == 'q' && "Subquery"@[4] == 'u' && "Subquery"@[5] == 'e'
        && "Subquery"@[6] == 'r' && "Subquery"@[7] == 'y');
    assert("Join"@.len() == 4);
    assert("Join"@[0] == 'J' && "Join"@[1] == 'o' && "Join"@[2] == 'i' && "Join"@[3] == 'n');
}

proof fn table_ref_starts(x: TableRef, s: Seq<char>)
    ensures
        table_ref_sealed(x, s).len() > 0,
        word_char(table_ref_sealed(x, s)[0]),
{
    table_ref_unfolds(x, s);
    table_ref_tags_are_words(x);
    assert(table_ref_sealed(x, s)[0] == ast_text::table_ref_tag(x)[0]);
}

proof fn table_ref_tag_ends(x: TableRef, s: Seq<char>)
    requires
        stops(s),
    ensures
        stops(table_ref_after(x, s)),
{
    reveal_strlit(" { name: ");
    reveal_strlit(" { select: ");
    reveal_strlit(" { left: ");
}

proof fn table_ref_named_decodes(x: TableRef, y: TableRef, s: Seq<char>, t: Seq<char>)
    requires
        x is Named,
        y is Named,
        table_ref_after(x, s) == table_ref_after(y, t),
        stops(s),
        stops(t),
    ensures
        same_table_ref(x, y),
        s == t,
    decreases x, 0int,
{
    reveal_strlit(", alias: ");
    reveal_strlit(" }");
    let cx2 = " }"@ + s;
    let cy2 = " }"@ + t;
    let ax1 = ast_text::optional_identifier_put(x->Named_alias, cx2);
    let ay1 = ast_text::optional_identifier_put(y->Named_alias, cy2);
    let cx1 = ", alias: "@ + ax1;
    let cy1 = ", alias: "@ + ay1;
    let ax0 = ast_text::object_name_put(x->Named_name, cx1);
    let ay0 = ast_text::object_name_put(y->Named_name, cy1);
    cancel(" { name: "@, ax0, ay0);
    object_name_decodes(x->Named_name, y->Named_name, cx1, cy1);
    cancel(", alias: "@, ax1, ay1);
    optional_identifier_decodes(x->Named_alias, y->Named_alias, cx2, cy2);
    cancel(" }"@, s, t);
}

proof fn table_ref_subquery_decodes(x: TableRef, y: TableRef, s: Seq<char>, t: Seq<char>)
    requires
        x is Subquery,
        y is Subquery,
        table_ref_after(x, s) == table_ref_after(y, t),
        stops(s),
        stops(t),
    ensures
        same_table_ref(x, y),
        s == t,
    decreases x, 0int,
{
    reveal_strlit(", alias: ");
    reveal_strlit(", column_aliases: ");
    reveal_strlit(" }");
    let cx3 = " }"@ + s;
    let cy3 = " }"@ + t;
    let ax2 = ast_text::identifier_list_put(x->Subquery_column_aliases@, cx3);
    let ay2 = ast_text::identifier_list_put(y->Subquery_column_aliases@, cy3);
    let cx2 = ", column_aliases: "@ + ax2;
    let cy2 = ", column_aliases: "@ + ay2;
    let ax1 = ast_text::identifier_put(x->Subquery_alias, cx2);
    let ay1 = ast_text::identifier_put(y->Subquery_alias, cy2);
    let cx1 = ", alias: "@ + ax1;
    let cy1 = ", alias: "@ + ay1;
    let ax0 = select_stmt_sealed(*x->Subquery_select, cx1);
    let ay0 = select_stmt_sealed(*y->Subquery_select, cy1);
    cancel(" { select: "@, ax0, ay0);
    select_stmt_decodes(*x->Subquery_select, *y->Subquery_select, cx1, cy1);
    cancel(", alias: "@, ax1, ay1);
    identifier_decodes(x->Subquery_alias, y->Subquery_alias, cx2, cy2);
    cancel(", column_aliases: "@, ax2, ay2);
    identifier_list_decodes(x->Subquery_column_aliases@, y->Subquery_column_aliases@, cx3, cy3);
    cancel(" }"@, s, t);
}

proof fn table_ref_join_decodes(x: TableRef, y: TableRef, s: Seq<char>, t: Seq<char>)
    requires
        x is Join,
        y is Join,
        table_ref_after(x, s) == table_ref_after(y, t),
        stops(s),
        stops(t),
    ensures
        same_table_ref(x, y),
        s == t,
    decreases x, 0int,
{
    reveal_strlit(", op: ");
    reveal_strlit(", right: ");
    reveal_strlit(", condition: ");
    reveal_strlit(" }");
    let cx4 = " }"@ + s;
    let cy4 = " }"@ + t;
    let ax3 = join_condition_sealed(x->Join_condition, cx4);
    let ay3 = join_condition_sealed(y->Join_condition, cy4);
    let cx3 = ", condition: "@ + ax3;
    let cy3 = ", condition: "@ + ay3;
    let ax2 = table_ref_sealed(*x->Join_right, cx3);
    let ay2 = table_ref_sealed(*y->Join_right, cy3);
    let cx2 = ", right: "@ + ax2;
    let cy2 = ", right: "@ + ay2;
    let ax1 = ast_text::join_op_put(x->Join_op, cx2);
    let ay1 = ast_text::join_op_put(y->Join_op, cy2);
    let cx1 = ", op: "@ + ax1;
    let cy1 = ", op: "@ + ay1;
    let ax0 = table_ref_sealed(*x->Join_left, cx1);
    let ay0 = table_ref_sealed(*y->Join_left, cy1);
    cancel(" { left: "@, ax0, ay0);
    table_ref_decodes(*x->Join_left, *y->Join_left, cx1, cy1);
    cancel(", op: "@, ax1, ay1);
    join_op_decodes(x->Join_op, y->Join_op, cx2, cy2);
    cancel(", right: "@, ax2, ay2);
    table_ref_decodes(*x->Join_right, *y->Join_right, cx3, cy3);
    cancel(", condition: "@, ax3, ay3);
    join_condition_decodes(x->Join_condition, y->Join_condition, cx4, cy4);
    cancel(" }"@, s, t);
}

proof fn table_ref_decodes(x: TableRef, y: TableRef, s: Seq<char>, t: Seq<char>)
    requires
        table_ref_sealed(x, s) == table_ref_sealed(y, t),
        stops(s),
        stops(t),
    ensures
        same_table_ref(x, y),
        s == t,
    decreases x, 1int,
{
    table_ref_unfolds(x, s);
    table_ref_unfolds(y, t);
    table_ref_tag_ends(x, s);
    table_ref_tag_ends(y, t);
    table_ref_tags_are_words(x);
    table_ref_tags_are_words(y);
    words_split(
        ast_text::table_ref_tag(x),
        table_ref_after(x, s),
        ast_text::table_ref_tag(y),
        table_ref_after(y, t),
    );
    match x {
        TableRef::Named { .. } => {
            table_ref_named_decodes(x, y, s, t);
        },
        TableRef::Subquery { .. } => {
            table_ref_subquery_decodes(x, y, s, t);
        },
        TableRef::Join { .. } => {
            table_ref_join_decodes(x, y, s, t);
        },
    }
}

proof fn branch_starts(x: (Expr, Expr), s: Seq<char>)
    ensures
        branch_sealed(x, s).len() > 0,
        branch_sealed(x, s)[0] == '(',
{
    branch_unfolds(x, s);
    reveal_strlit("(");
}

proof fn branch_decodes(x: (Expr, Expr), y: (Expr, Expr), s: Seq<char>, t: Seq<char>)
    requires
        branch_sealed(x, s) == branch_sealed(y, t),
    ensures
        same_branch(x, y),
        s == t,
    decreases x, 0int,
{
    reveal_strlit(", ");
    reveal_strlit(")");
    let cx2 = ")"@ + s;
    let cy2 = ")"@ + t;
    let ax1 = expr_sealed(x.1, cx2);
    let ay1 = expr_sealed(y.1, cy2);
    let cx1 = ", "@ + ax1;
    let cy1 = ", "@ + ay1;
    branch_unfolds(x, s);
    branch_unfolds(y, t);
    cancel("("@, expr_sealed(x.0, cx1), expr_sealed(y.0, cy1));
    expr_decodes(x.0, y.0, cx1, cy1);
    cancel(", "@, ax1, ay1);
    expr_decodes(x.1, y.1, cx2, cy2);
    cancel(")"@, s, t);
}

proof fn branch_list_tails_decode(
    x: Seq<(Expr, Expr)>,
    y: Seq<(Expr, Expr)>,
    i: int,
    s: Seq<char>,
    t: Seq<char>,
)
    requires
        0 <= i <= x.len(),
        i <= y.len(),
        branch_list_from_sealed(x, i, s) == branch_list_from_sealed(y, i, t),
    ensures
        x.len() == y.len(),
        forall|k: int| i <= k < x.len() ==> same_branch(#[trigger] x[k], y[k]),
        s == t,
    decreases x, x.len() - i,
{
    branch_list_unfolds(x, i, s);
    branch_list_unfolds(y, i, t);
    reveal_strlit("]");
    reveal_strlit(", ");
    let u = branch_list_from_sealed(x, i + 1, s);
    let v = branch_list_from_sealed(y, i + 1, t);
    if i < x.len() {
        branch_starts(x[i], u);
    }
    if i < y.len() {
        branch_starts(y[i], v);
    }
    assert(branch_list_from_sealed(x, i, s)[0] == branch_list_from_sealed(y, i, t)[0]);
    if i < x.len() && i < y.len() {
        if i > 0 {
            cancel(", "@, branch_sealed(x[i], u), branch_sealed(y[i], v));
        }
        branch_list_unfolds(x, i + 1, s);
        branch_list_unfolds(y, i + 1, t);
        assert(stops(u));
        assert(stops(v));
        branch_decodes(x[i], y[i], u, v);
        branch_list_tails_decode(x, y, i + 1, s, t);
    } else if i == x.len() && i == y.len() {
        cancel("]"@, s, t);
    } else if i == x.len() {
        assert(branch_list_from_sealed(x, i, s)[0] == ']');
    } else {
        assert(branch_list_from_sealed(y, i, t)[0] == ']');
    }
}

proof fn branch_list_decodes(x: Seq<(Expr, Expr)>, y: Seq<(Expr, Expr)>, s: Seq<char>, t: Seq<char>)
    requires
        branch_list_sealed(x, s) == branch_list_sealed(y, t),
    ensures
        same_branch_list(x, y),
        s == t,
    decreases x, x.len() + 1,
{
    branch_list_unfolds(x, 0, s);
    branch_list_unfolds(y, 0, t);
    cancel("["@, branch_list_from_sealed(x, 0, s), branch_list_from_sealed(y, 0, t));
    branch_list_tails_decode(x, y, 0, s, t);
}

proof fn cte_def_list_tails_decode(
    x: Seq<CteDef>,
    y: Seq<CteDef>,
    i: int,
    s: Seq<char>,
    t: Seq<char>,
)
    requires
        0 <= i <= x.len(),
        i <= y.len(),
        cte_def_list_from_sealed(x, i, s) == cte_def_list_from_sealed(y, i, t),
    ensures
        x.len() == y.len(),
        forall|k: int| i <= k < x.len() ==> same_cte_def(#[trigger] x[k], y[k]),
        s == t,
    decreases x, x.len() - i,
{
    cte_def_list_unfolds(x, i, s);
    cte_def_list_unfolds(y, i, t);
    reveal_strlit("]");
    reveal_strlit(", ");
    let u = cte_def_list_from_sealed(x, i + 1, s);
    let v = cte_def_list_from_sealed(y, i + 1, t);
    if i < x.len() {
        cte_def_starts(x[i], u);
    }
    if i < y.len() {
        cte_def_starts(y[i], v);
    }
    assert(cte_def_list_from_sealed(x, i, s)[0] == cte_def_list_from_sealed(y, i, t)[0]);
    if i < x.len() && i < y.len() {
        if i > 0 {
            cancel(", "@, cte_def_sealed(x[i], u), cte_def_sealed(y[i], v));
        }
        cte_def_list_unfolds(x, i + 1, s);
        cte_def_list_unfolds(y, i + 1, t);
        assert(stops(u));
        assert(stops(v));
        cte_def_decodes(x[i], y[i], u, v);
        cte_def_list_tails_decode(x, y, i + 1, s, t);
    } else if i == x.len() && i == y.len() {
        cancel("]"@, s, t);
    } else if i == x.len() {
        assert(cte_def_list_from_sealed(x, i, s)[0] == ']');
    } else {
        assert(cte_def_list_from_sealed(y, i, t)[0] == ']');
    }
}

proof fn cte_def_list_decodes(x: Seq<CteDef>, y: Seq<CteDef>, s: Seq<char>, t: Seq<char>)
    requires
        cte_def_list_sealed(x, s) == cte_def_list_sealed(y, t),
    ensures
        same_cte_def_list(x, y),
        s == t,
    decreases x, x.len() + 1,
{
    cte_def_list_unfolds(x, 0, s);
    cte_def_list_unfolds(y, 0, t);
    cancel("["@, cte_def_list_from_sealed(x, 0, s), cte_def_list_from_sealed(y, 0, t));
    cte_def_list_tails_decode(x, y, 0, s, t);
}

proof fn expr_list_tails_decode(
    x: Seq<Expr>,
    y: Seq<Expr>,
    i: int,
    s: Seq<char>,
    t: Seq<char>,
)
    requires
        0 <= i <= x.len(),
        i <= y.len(),
        expr_list_from_sealed(x, i, s) == expr_list_from_sealed(y, i, t),
    ensures
        x.len() == y.len(),
        forall|k: int| i <= k < x.len() ==> same_expr(#[trigger] x[k], y[k]),
        s == t,
    decreases x, x.len() - i,
{
    expr_list_unfolds(x, i, s);
    expr_list_unfolds(y, i, t);
    reveal_strlit("]");
    reveal_strlit(", ");
    let u = expr_list_from_sealed(x, i + 1, s);
    let v = expr_list_from_sealed(y, i + 1, t);
    if i < x.len() {
        expr_starts(x[i], u);
    }
    if i < y.len() {
        expr_starts(y[i], v);
    }
    assert(expr_list_from_sealed(x, i, s)[0] == expr_list_from_sealed(y, i, t)[0]);
    if i < x.len() && i < y.len() {
        if i > 0 {
            cancel(", "@, expr_sealed(x[i], u), expr_sealed(y[i], v));
        }
        expr_list_unfolds(x, i + 1, s);
        expr_list_unfolds(y, i + 1, t);
        assert(stops(u));
        assert(stops(v));
        expr_decodes(x[i], y[i], u, v);
        expr_list_tails_decode(x, y, i + 1, s, t);
    } else if i == x.len() && i == y.len() {
        cancel("]"@, s, t);
    } else if i == x.len() {
        assert(expr_list_from_sealed(x, i, s)[0] == ']');
    } else {
        assert(expr_list_from_sealed(y, i, t)[0] == ']');
    }
}

proof fn expr_list_decodes(x: Seq<Expr>, y: Seq<Expr>, s: Seq<char>, t: Seq<char>)
    requires
        expr_list_sealed(x, s) == expr_list_sealed(y, t),
    ensures
        same_expr_list(x, y),
        s == t,
    decreases x, x.len() + 1,
{
    expr_list_unfolds(x, 0, s);
    expr_list_unfolds(y, 0, t);
    cancel("["@, expr_list_from_sealed(x, 0, s), expr_list_from_sealed(y, 0, t));
    expr_list_tails_decode(x, y, 0, s, t);
}

proof fn identifier_list_tails_decode(
    x: Seq<Identifier>,
    y: Seq<Identifier>,
    i: int,
    s: Seq<char>,
    t: Seq<char>,
)
    requires
        0 <= i <= x.len(),
        i <= y.len(),
        ast_text::identifier_list_from(x, i, s) == ast_text::identifier_list_from(y, i, t),
    ensures
        x.len() == y.len(),
        forall|k: int| i <= k < x.len() ==> same_identifier(#[trigger] x[k], y[k]),
        s == t,
    decreases x.len() - i,
{
    reveal_strlit("]");
    reveal_strlit(", ");
    let u = ast_text::identifier_list_from(x, i + 1, s);
    let v = ast_text::identifier_list_from(y, i + 1, t);
    if i < x.len() {
        identifier_starts(x[i], u);
    }
    if i < y.len() {
        identifier_starts(y[i], v);
    }
    assert(ast_text::identifier_list_from(x, i, s)[0]
        == ast_text::identifier_list_from(y, i, t)[0]);
    if i < x.len() && i < y.len() {
        if i > 0 {
            cancel(", "@, ast_text::identifier_put(x[i], u), ast_text::identifier_put(y[i], v));
        }
        assert(stops(u));
        assert(stops(v));
        identifier_decodes(x[i], y[i], u, v);
        identifier_list_tails_decode(x, y, i + 1, s, t);
    } else if i == x.len() && i == y.len() {
        cancel("]"@, s, t);
    } else if i == x.len() {
        assert(ast_text::identifier_list_from(x, i, s)[0] == ']');
    } else {
        assert(ast_text::identifier_list_from(y, i, t)[0] == ']');
    }
}

proof fn identifier_list_decodes(x: Seq<Identifier>, y: Seq<Identifier>, s: Seq<char>, t: Seq<char>)
    requires
        ast_text::identifier_list_put(x, s) == ast_text::identifier_list_put(y, t),
    ensures
        same_identifier_list(x, y),
        s == t,
{
    cancel("["@, ast_text::identifier_list_from(x, 0, s), ast_text::identifier_list_from(y, 0, t));
    identifier_list_tails_decode(x, y, 0, s, t);
}

proof fn order_item_list_tails_decode(
    x: Seq<OrderItem>,
    y: Seq<OrderItem>,
    i: int,
    s: Seq<char>,
    t: Seq<char>,
)
    requires
        0 <= i <= x.len(),
        i <= y.len(),
        order_item_list_from_sealed(x, i, s) == order_item_list_from_sealed(y, i, t),
    ensures
        x.len() == y.len(),
        forall|k: int| i <= k < x.len() ==> same_order_item(#[trigger] x[k], y[k]),
        s == t,
    decreases x, x.len() - i,
{
    order_item_list_unfolds(x, i, s);
    order_item_list_unfolds(y, i, t);
    reveal_strlit("]");
    reveal_strlit(", ");
    let u = order_item_list_from_sealed(x, i + 1, s);
    let v = order_item_list_from_sealed(y, i + 1, t);
    if i < x.len() {
        order_item_starts(x[i], u);
    }
    if i < y.len() {
        order_item_starts(y[i], v);
    }
    assert(order_item_list_from_sealed(x, i, s)[0] == order_item_list_from_sealed(y, i, t)[0]);
    if i < x.len() && i < y.len() {
        if i > 0 {
            cancel(", "@, order_item_sealed(x[i], u), order_item_sealed(y[i], v));
        }
        order_item_list_unfolds(x, i + 1, s);
        order_item_list_unfolds(y, i + 1, t);
        assert(stops(u));
        assert(stops(v));
        order_item_decodes(x[i], y[i], u, v);
        order_item_list_tails_decode(x, y, i + 1, s, t);
    } else if i == x.len() && i == y.len() {
        cancel("]"@, s, t);
    } else if i == x.len() {
        assert(order_item_list_from_sealed(x, i, s)[0] == ']');
    } else {
        assert(order_item_list_from_sealed(y, i, t)[0] == ']');
    }
}

proof fn order_item_list_decodes(x: Seq<OrderItem>, y: Seq<OrderItem>, s: Seq<char>, t: Seq<char>)
    requires
        order_item_list_sealed(x, s) == order_item_list_sealed(y, t),
    ensures
        same_order_item_list(x, y),
        s == t,
    decreases x, x.len() + 1,
{
    order_item_list_unfolds(x, 0, s);
    order_item_list_unfolds(y, 0, t);
    cancel("["@, order_item_list_from_sealed(x, 0, s), order_item_list_from_sealed(y, 0, t));
    order_item_list_tails_decode(x, y, 0, s, t);
}

proof fn select_item_list_tails_decode(
    x: Seq<SelectItem>,
    y: Seq<SelectItem>,
    i: int,
    s: Seq<char>,
    t: Seq<char>,
)
    requires
        0 <= i <= x.len(),
        i <= y.len(),
        select_item_list_from_sealed(x, i, s) == select_item_list_from_sealed(y, i, t),
    ensures
        x.len() == y.len(),
        forall|k: int| i <= k < x.len() ==> same_select_item(#[trigger] x[k], y[k]),
        s == t,
    decreases x, x.len() - i,
{
    select_item_list_unfolds(x, i, s);
    select_item_list_unfolds(y, i, t);
    reveal_strlit("]");
    reveal_strlit(", ");
    let u = select_item_list_from_sealed(x, i + 1, s);
    let v = select_item_list_from_sealed(y, i + 1, t);
    if i < x.len() {
        select_item_starts(x[i], u);
    }
    if i < y.len() {
        select_item_starts(y[i], v);
    }
    assert(select_item_list_from_sealed(x, i, s)[0] == select_item_list_from_sealed(y, i, t)[0]);
    if i < x.len() && i < y.len() {
        if i > 0 {
            cancel(", "@, select_item_sealed(x[i], u), select_item_sealed(y[i], v));
        }
        select_item_list_unfolds(x, i + 1, s);
        select_item_list_unfolds(y, i + 1, t);
        assert(stops(u));
        assert(stops(v));
        select_item_decodes(x[i], y[i], u, v);
        select_item_list_tails_decode(x, y, i + 1, s, t);
    } else if i == x.len() && i == y.len() {
        cancel("]"@, s, t);
    } else if i == x.len() {
        assert(select_item_list_from_sealed(x, i, s)[0] == ']');
    } else {
        assert(select_item_list_from_sealed(y, i, t)[0] == ']');
    }
}

proof fn select_item_list_decodes(
    x: Seq<SelectItem>,
    y: Seq<SelectItem>,
    s: Seq<char>,
    t: Seq<char>,
)
    requires
        select_item_list_sealed(x, s) == select_item_list_sealed(y, t),
    ensures
        same_select_item_list(x, y),
        s == t,
    decreases x, x.len() + 1,
{
    select_item_list_unfolds(x, 0, s);
    select_item_list_unfolds(y, 0, t);
    cancel("["@, select_item_list_from_sealed(x, 0, s), select_item_list_from_sealed(y, 0, t));
    select_item_list_tails_decode(x, y, 0, s, t);
}

proof fn set_op_tail_list_tails_decode(
    x: Seq<SetOpTail>,
    y: Seq<SetOpTail>,
    i: int,
    s: Seq<char>,
    t: Seq<char>,
)
    requires
        0 <= i <= x.len(),
        i <= y.len(),
        set_op_tail_list_from_sealed(x, i, s) == set_op_tail_list_from_sealed(y, i, t),
    ensures
        x.len() == y.len(),
        forall|k: int| i <= k < x.len() ==> same_set_op_tail(#[trigger] x[k], y[k]),
        s == t,
    decreases x, x.len() - i,
{
    set_op_tail_list_unfolds(x, i, s);
    set_op_tail_list_unfolds(y, i, t);
    reveal_strlit("]");
    reveal_strlit(", ");
    let u = set_op_tail_list_from_sealed(x, i + 1, s);
    let v = set_op_tail_list_from_sealed(y, i + 1, t);
    if i < x.len() {
        set_op_tail_starts(x[i], u);
    }
    if i < y.len() {
        set_op_tail_starts(y[i], v);
    }
    assert(set_op_tail_list_from_sealed(x, i, s)[0] == set_op_tail_list_from_sealed(y, i, t)[0]);
    if i < x.len() && i < y.len() {
        if i > 0 {
            cancel(", "@, set_op_tail_sealed(x[i], u), set_op_tail_sealed(y[i], v));
        }
        set_op_tail_list_unfolds(x, i + 1, s);
        set_op_tail_list_unfolds(y, i + 1, t);
        assert(stops(u));
        assert(stops(v));
        set_op_tail_decodes(x[i], y[i], u, v);
        set_op_tail_list_tails_decode(x, y, i + 1, s, t);
    } else if i == x.len() && i == y.len() {
        cancel("]"@, s, t);
    } else if i == x.len() {
        assert(set_op_tail_list_from_sealed(x, i, s)[0] == ']');
    } else {
        assert(set_op_tail_list_from_sealed(y, i, t)[0] == ']');
    }
}

proof fn set_op_tail_list_decodes(x: Seq<SetOpTail>, y: Seq<SetOpTail>, s: Seq<char>, t: Seq<char>)
    requires
        set_op_tail_list_sealed(x, s) == set_op_tail_list_sealed(y, t),
    ensures
        same_set_op_tail_list(x, y),
        s == t,
    decreases x, x.len() + 1,
{
    set_op_tail_list_unfolds(x, 0, s);
    set_op_tail_list_unfolds(y, 0, t);
    cancel("["@, set_op_tail_list_from_sealed(x, 0, s), set_op_tail_list_from_sealed(y, 0, t));
    set_op_tail_list_tails_decode(x, y, 0, s, t);
}

proof fn table_ref_list_tails_decode(
    x: Seq<TableRef>,
    y: Seq<TableRef>,
    i: int,
    s: Seq<char>,
    t: Seq<char>,
)
    requires
        0 <= i <= x.len(),
        i <= y.len(),
        table_ref_list_from_sealed(x, i, s) == table_ref_list_from_sealed(y, i, t),
    ensures
        x.len() == y.len(),
        forall|k: int| i <= k < x.len() ==> same_table_ref(#[trigger] x[k], y[k]),
        s == t,
    decreases x, x.len() - i,
{
    table_ref_list_unfolds(x, i, s);
    table_ref_list_unfolds(y, i, t);
    reveal_strlit("]");
    reveal_strlit(", ");
    let u = table_ref_list_from_sealed(x, i + 1, s);
    let v = table_ref_list_from_sealed(y, i + 1, t);
    if i < x.len() {
        table_ref_starts(x[i], u);
    }
    if i < y.len() {
        table_ref_starts(y[i], v);
    }
    assert(table_ref_list_from_sealed(x, i, s)[0] == table_ref_list_from_sealed(y, i, t)[0]);
    if i < x.len() && i < y.len() {
        if i > 0 {
            cancel(", "@, table_ref_sealed(x[i], u), table_ref_sealed(y[i], v));
        }
        table_ref_list_unfolds(x, i + 1, s);
        table_ref_list_unfolds(y, i + 1, t);
        assert(stops(u));
        assert(stops(v));
        table_ref_decodes(x[i], y[i], u, v);
        table_ref_list_tails_decode(x, y, i + 1, s, t);
    } else if i == x.len() && i == y.len() {
        cancel("]"@, s, t);
    } else if i == x.len() {
        assert(table_ref_list_from_sealed(x, i, s)[0] == ']');
    } else {
        assert(table_ref_list_from_sealed(y, i, t)[0] == ']');
    }
}

proof fn table_ref_list_decodes(x: Seq<TableRef>, y: Seq<TableRef>, s: Seq<char>, t: Seq<char>)
    requires
        table_ref_list_sealed(x, s) == table_ref_list_sealed(y, t),
    ensures
        same_table_ref_list(x, y),
        s == t,
    decreases x, x.len() + 1,
{
    table_ref_list_unfolds(x, 0, s);
    table_ref_list_unfolds(y, 0, t);
    cancel("["@, table_ref_list_from_sealed(x, 0, s), table_ref_list_from_sealed(y, 0, t));
    table_ref_list_tails_decode(x, y, 0, s, t);
}

proof fn optional_expr_decodes(x: Option<Expr>, y: Option<Expr>, s: Seq<char>, t: Seq<char>)
    requires
        optional_expr_sealed(x, s) == optional_expr_sealed(y, t),
        stops(s),
        stops(t),
    ensures
        same_optional_expr(x, y),
        s == t,
    decreases x, 2int,
{
    optional_expr_unfolds(x, s);
    optional_expr_unfolds(y, t);
    reveal_strlit("Some");
    reveal_strlit("None");
    reveal_strlit("(");
    reveal_strlit(")");
    match (x, y) {
        (Some(a), Some(b)) => {
            let u = expr_sealed(a, ")"@ + s);
            let v = expr_sealed(b, ")"@ + t);
            cancel("Some"@, "("@ + u, "("@ + v);
            cancel("("@, u, v);
            expr_decodes(a, b, ")"@ + s, ")"@ + t);
            cancel(")"@, s, t);
        },
        (None, None) => {
            cancel("None"@, s, t);
        },
        (Some(a), None) => {
            let u = expr_sealed(a, ")"@ + s);
            words_split("Some"@, "("@ + u, "None"@, t);
            assert("Some"@[0] == 'S' && "None"@[0] == 'N');
        },
        (None, Some(b)) => {
            let v = expr_sealed(b, ")"@ + t);
            words_split("None"@, s, "Some"@, "("@ + v);
            assert("Some"@[0] == 'S' && "None"@[0] == 'N');
        },
    }
}

proof fn optional_identifier_decodes(
    x: Option<Identifier>,
    y: Option<Identifier>,
    s: Seq<char>,
    t: Seq<char>,
)
    requires
        ast_text::optional_identifier_put(x, s) == ast_text::optional_identifier_put(y, t),
        stops(s),
        stops(t),
    ensures
        same_optional_identifier(x, y),
        s == t,
{
    reveal_strlit("Some");
    reveal_strlit("None");
    reveal_strlit("(");
    reveal_strlit(")");
    match (x, y) {
        (Some(a), Some(b)) => {
            let u = ast_text::identifier_put(a, ")"@ + s);
            let v = ast_text::identifier_put(b, ")"@ + t);
            cancel("Some"@, "("@ + u, "("@ + v);
            cancel("("@, u, v);
            identifier_decodes(a, b, ")"@ + s, ")"@ + t);
            cancel(")"@, s, t);
        },
        (None, None) => {
            cancel("None"@, s, t);
        },
        (Some(a), None) => {
            let u = ast_text::identifier_put(a, ")"@ + s);
            words_split("Some"@, "("@ + u, "None"@, t);
            assert("Some"@[0] == 'S' && "None"@[0] == 'N');
        },
        (None, Some(b)) => {
            let v = ast_text::identifier_put(b, ")"@ + t);
            words_split("None"@, s, "Some"@, "("@ + v);
            assert("Some"@[0] == 'S' && "None"@[0] == 'N');
        },
    }
}

proof fn optional_window_spec_decodes(
    x: Option<WindowSpec>,
    y: Option<WindowSpec>,
    s: Seq<char>,
    t: Seq<char>,
)
    requires
        optional_window_spec_sealed(x, s) == optional_window_spec_sealed(y, t),
        stops(s),
        stops(t),
    ensures
        same_optional_window_spec(x, y),
        s == t,
    decreases x, 2int,
{
    optional_window_spec_unfolds(x, s);
    optional_window_spec_unfolds(y, t);
    reveal_strlit("Some");
    reveal_strlit("None");
    reveal_strlit("(");
    reveal_strlit(")");
    match (x, y) {
        (Some(a), Some(b)) => {
            let u = window_spec_sealed(a, ")"@ + s);
            let v = window_spec_sealed(b, ")"@ + t);
            cancel("Some"@, "("@ + u, "("@ + v);
            cancel("("@, u, v);
            window_spec_decodes(a, b, ")"@ + s, ")"@ + t);
            cancel(")"@, s, t);
        },
        (None, None) => {
            cancel("None"@, s, t);
        },
        (Some(a), None) => {
            let u = window_spec_sealed(a, ")"@ + s);
            words_split("Some"@, "("@ + u, "None"@, t);
            assert("Some"@[0] == 'S' && "None"@[0] == 'N');
        },
        (None, Some(b)) => {
            let v = window_spec_sealed(b, ")"@ + t);
            words_split("None"@, s, "Some"@, "("@ + v);
            assert("Some"@[0] == 'S' && "None"@[0] == 'N');
        },
    }
}

proof fn optional_boxed_expr_decodes(
    x: Option<Box<Expr>>,
    y: Option<Box<Expr>>,
    s: Seq<char>,
    t: Seq<char>,
)
    requires
        optional_boxed_expr_sealed(x, s) == optional_boxed_expr_sealed(y, t),
        stops(s),
        stops(t),
    ensures
        same_optional_boxed_expr(x, y),
        s == t,
    decreases x, 2int,
{
    optional_boxed_expr_unfolds(x, s);
    optional_boxed_expr_unfolds(y, t);
    reveal_strlit("Some");
    reveal_strlit("None");
    reveal_strlit("(");
    reveal_strlit(")");
    match (x, y) {
        (Some(a), Some(b)) => {
            let u = expr_sealed(*a, ")"@ + s);
            let v = expr_sealed(*b, ")"@ + t);
            cancel("Some"@, "("@ + u, "("@ + v);
            cancel("("@, u, v);
            expr_decodes(*a, *b, ")"@ + s, ")"@ + t);
            cancel(")"@, s, t);
        },
        (None, None) => {
            cancel("None"@, s, t);
        },
        (Some(a), None) => {
            let u = expr_sealed(*a, ")"@ + s);
            words_split("Some"@, "("@ + u, "None"@, t);
            assert("Some"@[0] == 'S' && "None"@[0] == 'N');
        },
        (None, Some(b)) => {
            let v = expr_sealed(*b, ")"@ + t);
            words_split("None"@, s, "Some"@, "("@ + v);
            assert("Some"@[0] == 'S' && "None"@[0] == 'N');
        },
    }
}

proof fn optional_quoted_decodes(x: Option<String>, y: Option<String>, s: Seq<char>, t: Seq<char>)
    requires
        ast_text::optional_quoted_put(x, s) == ast_text::optional_quoted_put(y, t),
        stops(s),
        stops(t),
    ensures
        same_optional_quoted(x, y),
        s == t,
{
    reveal_strlit("Some");
    reveal_strlit("None");
    reveal_strlit("(");
    reveal_strlit(")");
    match (x, y) {
        (Some(a), Some(b)) => {
            let u = ast_text::quoted_put(a@, ")"@ + s);
            let v = ast_text::quoted_put(b@, ")"@ + t);
            cancel("Some"@, "("@ + u, "("@ + v);
            cancel("("@, u, v);
            quoted_decodes(a@, b@, ")"@ + s, ")"@ + t);
            cancel(")"@, s, t);
        },
        (None, None) => {
            cancel("None"@, s, t);
        },
        (Some(a), None) => {
            let u = ast_text::quoted_put(a@, ")"@ + s);
            words_split("Some"@, "("@ + u, "None"@, t);
            assert("Some"@[0] == 'S' && "None"@[0] == 'N');
        },
        (None, Some(b)) => {
            let v = ast_text::quoted_put(b@, ")"@ + t);
            words_split("None"@, s, "Some"@, "("@ + v);
            assert("Some"@[0] == 'S' && "None"@[0] == 'N');
        },
    }
}

proof fn optional_order_item_list_decodes(
    x: Option<Vec<OrderItem>>,
    y: Option<Vec<OrderItem>>,
    s: Seq<char>,
    t: Seq<char>,
)
    requires
        optional_order_item_list_sealed(x, s) == optional_order_item_list_sealed(y, t),
        stops(s),
        stops(t),
    ensures
        same_optional_order_item_list(x, y),
        s == t,
    decreases x, 2int,
{
    optional_order_item_list_unfolds(x, s);
    optional_order_item_list_unfolds(y, t);
    reveal_strlit("Some");
    reveal_strlit("None");
    reveal_strlit("(");
    reveal_strlit(")");
    match (x, y) {
        (Some(a), Some(b)) => {
            let u = order_item_list_sealed(a@, ")"@ + s);
            let v = order_item_list_sealed(b@, ")"@ + t);
            cancel("Some"@, "("@ + u, "("@ + v);
            cancel("("@, u, v);
            order_item_list_decodes(a@, b@, ")"@ + s, ")"@ + t);
            cancel(")"@, s, t);
        },
        (None, None) => {
            cancel("None"@, s, t);
        },
        (Some(a), None) => {
            let u = order_item_list_sealed(a@, ")"@ + s);
            words_split("Some"@, "("@ + u, "None"@, t);
            assert("Some"@[0] == 'S' && "None"@[0] == 'N');
        },
        (None, Some(b)) => {
            let v = order_item_list_sealed(b@, ")"@ + t);
            words_split("None"@, s, "Some"@, "("@ + v);
            assert("Some"@[0] == 'S' && "None"@[0] == 'N');
        },
    }
}

#[verifier::opaque]
spec fn exprs_joined_sealed(x: Seq<Expr>, i: int, rest: Seq<char>) -> Seq<char> {
    ast_text::exprs_joined(x, i, rest)
}

proof fn exprs_joined_unfolds(x: Seq<Expr>, i: int, rest: Seq<char>)
    requires
        0 <= i <= x.len(),
    ensures
        exprs_joined_sealed(x, i, rest) == if i == x.len() {
            rest
        } else if i == 0 {
            expr_sealed(x[i], exprs_joined_sealed(x, i + 1, rest))
        } else {
            ","@ + expr_sealed(x[i], exprs_joined_sealed(x, i + 1, rest))
        },
{
    reveal(expr_sealed);
    reveal(exprs_joined_sealed);
}

proof fn joined_exprs_decode(x: Seq<Expr>, y: Seq<Expr>, i: int, s: Seq<char>, t: Seq<char>)
    requires
        0 <= i <= x.len(),
        i <= y.len(),
        s.len() > 0 && s[0] == ')',
        t.len() > 0 && t[0] == ')',
        exprs_joined_sealed(x, i, s) == exprs_joined_sealed(y, i, t),
    ensures
        x.len() == y.len(),
        forall|k: int| i <= k < x.len() ==> same_expr(#[trigger] x[k], y[k]),
        s == t,
    decreases x.len() - i,
{
    reveal_strlit(",");
    exprs_joined_unfolds(x, i, s);
    exprs_joined_unfolds(y, i, t);
    let u = exprs_joined_sealed(x, i + 1, s);
    let v = exprs_joined_sealed(y, i + 1, t);
    if i < x.len() {
        expr_starts(x[i], u);
        exprs_joined_unfolds(x, i + 1, s);
    }
    if i < y.len() {
        expr_starts(y[i], v);
        exprs_joined_unfolds(y, i + 1, t);
    }
    assert(exprs_joined_sealed(x, i, s)[0] == exprs_joined_sealed(y, i, t)[0]);
    if i < x.len() && i < y.len() {
        if i > 0 {
            cancel(","@, expr_sealed(x[i], u), expr_sealed(y[i], v));
        }
        assert(stops(u));
        assert(stops(v));
        expr_decodes(x[i], y[i], u, v);
        joined_exprs_decode(x, y, i + 1, s, t);
    }
}

/// Lists of expressions with equal texts are alike, whatever follows the bracket
/// behind them.
pub proof fn equal_exprs_are_alike(
    x: Seq<Expr>,
    y: Seq<Expr>,
    s: Seq<char>,
    t: Seq<char>,
)
    requires
        ast_text::exprs_joined(x, 0, ")"@ + s) == ast_text::exprs_joined(y, 0, ")"@ + t),
    ensures
        same_expr_list(x, y),
        s == t,
{
    reveal_strlit(")");
    reveal(exprs_joined_sealed);
    joined_exprs_decode(x, y, 0, ")"@ + s, ")"@ + t);
    cancel(")"@, s, t);
}

#[verifier::opaque]
spec fn order_items_joined_sealed(x: Seq<OrderItem>, i: int, rest: Seq<char>) -> Seq<char> {
    ast_text::order_items_joined(x, i, rest)
}

proof fn order_items_joined_unfolds(x: Seq<OrderItem>, i: int, rest: Seq<char>)
    requires
        0 <= i <= x.len(),
    ensures
        order_items_joined_sealed(x, i, rest) == if i == x.len() {
            rest
        } else if i == 0 {
            order_item_sealed(x[i], order_items_joined_sealed(x, i + 1, rest))
        } else {
            ","@ + order_item_sealed(x[i], order_items_joined_sealed(x, i + 1, rest))
        },
{
    reveal(order_item_sealed);
    reveal(order_items_joined_sealed);
}

proof fn joined_order_items_decode(
    x: Seq<OrderItem>,
    y: Seq<OrderItem>,
    i: int,
    s: Seq<char>,
    t: Seq<char>,
)
    requires
        0 <= i <= x.len(),
        i <= y.len(),
        s.len() > 0 && s[0] == ')',
        t.len() > 0 && t[0] == ')',
        order_items_joined_sealed(x, i, s) == order_items_joined_sealed(y, i, t),
    ensures
        x.len() == y.len(),
        forall|k: int| i <= k < x.len() ==> same_order_item(#[trigger] x[k], y[k]),
        s == t,
    decreases x.len() - i,
{
    reveal_strlit(",");
    order_items_joined_unfolds(x, i, s);
    order_items_joined_unfolds(y, i, t);
    let u = order_items_joined_sealed(x, i + 1, s);
    let v = order_items_joined_sealed(y, i + 1, t);
    if i < x.len() {
        order_item_starts(x[i], u);
        order_items_joined_unfolds(x, i + 1, s);
    }
    if i < y.len() {
        order_item_starts(y[i], v);
        order_items_joined_unfolds(y, i + 1, t);
    }
    assert(order_items_joined_sealed(x, i, s)[0] == order_items_joined_sealed(y, i, t)[0]);
    if i < x.len() && i < y.len() {
        if i > 0 {
            cancel(","@, order_item_sealed(x[i], u), order_item_sealed(y[i], v));
        }
        assert(stops(u));
        assert(stops(v));
        order_item_decodes(x[i], y[i], u, v);
        joined_order_items_decode(x, y, i + 1, s, t);
    }
}

/// Lists of sort keys with equal texts are alike, whatever follows the bracket
/// behind them.
pub proof fn equal_order_items_are_alike(
    x: Seq<OrderItem>,
    y: Seq<OrderItem>,
    s: Seq<char>,
    t: Seq<char>,
)
    requires
        ast_text::order_items_joined(x, 0, ")"@ + s) == ast_text::order_items_joined(
            y,
            0,
            ")"@ + t,
        ),
    ensures
        same_order_item_list(x, y),
        s == t,
{
    reveal_strlit(")");
    reveal(order_items_joined_sealed);
    joined_order_items_decode(x, y, 0, ")"@ + s, ")"@ + t);
    cancel(")"@, s, t);
}

/// Expressions with equal texts are alike.
pub proof fn equal_texts_are_alike(x: Expr, y: Expr)
    requires
        ast_text::expr_put(x, Seq::empty()) == ast_text::expr_put(y, Seq::empty()),
    ensures
        same_expr(x, y),
{
    reveal(expr_sealed);
    expr_decodes(x, y, Seq::empty(), Seq::empty());
}

} // verus!
