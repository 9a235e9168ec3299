//! A verified decoder for the JSON shapes the exchange schemas use.
//!
//! Both exchanges speak JSON objects whose member values are scalars, arrays
//! of arrays of strings (the bid/ask row lists), or one level of nested
//! object.  This module decodes exactly that bounded grammar — member order
//! free, whitespace between tokens allowed — and nothing deeper.  Strings
//! must be escape-free (no `\`), which every payload of these schemas
//! satisfies; anything else is rejected, never misread.
//!
//! The decoder is specified by a total spec-level parser (`sp_message` and
//! its helpers); each executable function returns exactly what its spec
//! counterpart denotes.

use vstd::prelude::*;

verus! {

/// A scalar member value.
#[derive(Clone, PartialEq, Eq, Debug)]
pub enum Prim {
    Null,
    Bool(bool),
    /// A number, kept as its raw token text.
    Num(String),
    /// A string's content (escape-free).
    Str(String),
}

/// The mathematical value of a `Prim`.
pub enum PrimView {
    Null,
    Bool(bool),
    Num(Seq<char>),
    Str(Seq<char>),
}

impl View for Prim {
    type V = PrimView;

    open spec fn view(&self) -> PrimView {
        match self {
            Prim::Null => PrimView::Null,
            Prim::Bool(b) => PrimView::Bool(*b),
            Prim::Num(t) => PrimView::Num(t@),
            Prim::Str(t) => PrimView::Str(t@),
        }
    }
}

/// A member value inside a nested object: a scalar or a row list.
#[derive(Clone, PartialEq, Eq, Debug)]
pub enum Inner {
    Prim(Prim),
    /// An array of arrays of strings.
    Rows(Vec<Vec<String>>),
}

/// The mathematical value of an `Inner`.
pub enum InnerView {
    Prim(PrimView),
    Rows(Seq<Seq<Seq<char>>>),
}

/// The view of a row list.
pub open spec fn rows_view(rows: Seq<Vec<String>>) -> Seq<Seq<Seq<char>>> {
    rows.map_values(|row: Vec<String>| row.deep_view())
}

impl View for Inner {
    type V = InnerView;

    open spec fn view(&self) -> InnerView {
        match self {
            Inner::Prim(p) => InnerView::Prim(p@),
            Inner::Rows(rows) => InnerView::Rows(rows_view(rows@)),
        }
    }
}

/// A top-level member value: a scalar, a row list, or one nested object.
#[derive(Clone, PartialEq, Eq, Debug)]
pub enum Val {
    Prim(Prim),
    Rows(Vec<Vec<String>>),
    Obj(Vec<(String, Inner)>),
}

/// The mathematical value of a `Val`.
pub enum ValView {
    Prim(PrimView),
    Rows(Seq<Seq<Seq<char>>>),
    Obj(Seq<(Seq<char>, InnerView)>),
}

/// The view of a member list.
pub open spec fn members_view(ms: Seq<(String, Inner)>) -> Seq<(Seq<char>, InnerView)> {
    ms.map_values(|m: (String, Inner)| (m.0@, m.1@))
}

impl View for Val {
    type V = ValView;

    open spec fn view(&self) -> ValView {
        match self {
            Val::Prim(p) => ValView::Prim(p@),
            Val::Rows(rows) => ValView::Rows(rows_view(rows@)),
            Val::Obj(ms) => ValView::Obj(members_view(ms@)),
        }
    }
}

/// The view of a decoded message: its member list.
pub open spec fn message_view(ms: Seq<(String, Val)>) -> Seq<(Seq<char>, ValView)> {
    ms.map_values(|m: (String, Val)| (m.0@, m.1@))
}

/// JSON insignificant whitespace.
pub open spec fn is_ws(c: char) -> bool {
    c == ' ' || c == '\n' || c == '\r' || c == '\t'
}

/// First index at or after `i` holding a non-whitespace character (or the
/// end).
pub open spec fn sp_ws(s: Seq<char>, i: int) -> int
    decreases s.len() - i,
{
    if 0 <= i < s.len() && is_ws(s[i]) {
        sp_ws(s, i + 1)
    } else {
        i
    }
}

/// Scan a string's content from just after its opening quote: the characters
/// up to the closing quote, none of which may be a quote or a backslash.
pub open spec fn sp_str_scan(s: Seq<char>, j: int) -> Option<(Seq<char>, int)>
    decreases s.len() - j,
{
    if !(0 <= j < s.len()) {
        None
    } else if s[j] == '"' {
        Some((Seq::empty(), j + 1))
    } else if s[j] == '\\' {
        None
    } else {
        match sp_str_scan(s, j + 1) {
            Some((t, k)) => Some((seq![s[j]] + t, k)),
            None => None,
        }
    }
}

/// A string token at `i`: an opening quote, then its content.
pub open spec fn sp_string(s: Seq<char>, i: int) -> Option<(Seq<char>, int)> {
    if 0 <= i < s.len() && s[i] == '"' {
        sp_str_scan(s, i + 1)
    } else {
        None
    }
}

/// A character a number token may hold.
pub open spec fn is_num_char(c: char) -> bool {
    crate::decimal::is_digit(c) || c == '-' || c == '+' || c == '.' || c == 'e' || c == 'E'
}

/// First index at or after `i` holding a non-number character (or the end).
pub open spec fn sp_num_scan(s: Seq<char>, i: int) -> int
    decreases s.len() - i,
{
    if 0 <= i < s.len() && is_num_char(s[i]) {
        sp_num_scan(s, i + 1)
    } else {
        i
    }
}

/// A number token at `i`: its raw text.
pub open spec fn sp_number(s: Seq<char>, i: int) -> Option<(Seq<char>, int)> {
    let e = sp_num_scan(s, i);
    if 0 <= i && e > i {
        Some((s.subrange(i, e), e))
    } else {
        None
    }
}

/// Does the word `w` stand at position `i` of `s`?
pub open spec fn sp_lit(s: Seq<char>, i: int, w: Seq<char>) -> bool {
    0 <= i && i + w.len() <= s.len() && s.subrange(i, i + w.len()) == w
}

/// A scalar at `i`.
pub open spec fn sp_prim(s: Seq<char>, i: int) -> Option<(PrimView, int)> {
    if !(0 <= i < s.len()) {
        None
    } else if s[i] == '"' {
        match sp_string(s, i) {
            Some((t, e)) => Some((PrimView::Str(t), e)),
            None => None,
        }
    } else if sp_lit(s, i, "null"@) {
        Some((PrimView::Null, i + 4))
    } else if sp_lit(s, i, "true"@) {
        Some((PrimView::Bool(true), i + 4))
    } else if sp_lit(s, i, "false"@) {
        Some((PrimView::Bool(false), i + 5))
    } else {
        match sp_number(s, i) {
            Some((t, e)) => Some((PrimView::Num(t), e)),
            None => None,
        }
    }
}

/// The elements of a row after its first string: whitespace, then either the
/// closing bracket or a comma and the next string.
pub open spec fn sp_row_rest(s: Seq<char>, i: int) -> Option<(Seq<Seq<char>>, int)>
    decreases s.len() - i,
{
    let j = sp_ws(s, i);
    if !(i <= j < s.len()) {
        None
    } else if s[j] == ']' {
        Some((Seq::empty(), j + 1))
    } else if s[j] == ',' {
        let k = sp_ws(s, j + 1);
        match sp_string(s, k) {
            Some((t, m)) => if i < m <= s.len() {
                match sp_row_rest(s, m) {
                    Some((rest, e)) => Some((seq![t] + rest, e)),
                    None => None,
                }
            } else {
                None
            },
            None => None,
        }
    } else {
        None
    }
}

/// A row at `i`: `[`, strings separated by commas, `]`.
pub open spec fn sp_row(s: Seq<char>, i: int) -> Option<(Seq<Seq<char>>, int)> {
    if 0 <= i < s.len() && s[i] == '[' {
        let j = sp_ws(s, i + 1);
        if j < s.len() && s[j] == ']' {
            Some((Seq::empty(), j + 1))
        } else {
            match sp_string(s, j) {
                Some((t, m)) => if i < m <= s.len() {
                    match sp_row_rest(s, m) {
                        Some((rest, e)) => Some((seq![t] + rest, e)),
                        None => None,
                    }
                } else {
                    None
                },
                None => None,
            }
        }
    } else {
        None
    }
}

/// The rows of a row list after its first row.
pub open spec fn sp_rows_rest(s: Seq<char>, i: int) -> Option<(Seq<Seq<Seq<char>>>, int)>
    decreases s.len() - i,
{
    let j = sp_ws(s, i);
    if !(i <= j < s.len()) {
        None
    } else if s[j] == ']' {
        Some((Seq::empty(), j + 1))
    } else if s[j] == ',' {
        let k = sp_ws(s, j + 1);
        match sp_row(s, k) {
            Some((t, m)) => if i < m <= s.len() {
                match sp_rows_rest(s, m) {
                    Some((rest, e)) => Some((seq![t] + rest, e)),
                    None => None,
                }
            } else {
                None
            },
            None => None,
        }
    } else {
        None
    }
}

/// A row list at `i`: `[`, rows separated by commas, `]`.
pub open spec fn sp_rows(s: Seq<char>, i: int) -> Option<(Seq<Seq<Seq<char>>>, int)> {
    if 0 <= i < s.len() && s[i] == '[' {
        let j = sp_ws(s, i + 1);
        if j < s.len() && s[j] == ']' {
            Some((Seq::empty(), j + 1))
        } else {
            match sp_row(s, j) {
                Some((t, m)) => if i < m <= s.len() {
                    match sp_rows_rest(s, m) {
                        Some((rest, e)) => Some((seq![t] + rest, e)),
                        None => None,
                    }
                } else {
                    None
                },
                None => None,
            }
        }
    } else {
        None
    }
}

/// A nested-object member value at `i`: a scalar or a row list.
pub open spec fn sp_inner(s: Seq<char>, i: int) -> Option<(InnerView, int)> {
    if !(0 <= i < s.len()) {
        None
    } else if s[i] == '[' {
        match sp_rows(s, i) {
            Some((t, e)) => Some((InnerView::Rows(t), e)),
            None => None,
        }
    } else {
        match sp_prim(s, i) {
            Some((p, e)) => Some((InnerView::Prim(p), e)),
            None => None,
        }
    }
}

/// One `"key": value` member of a nested object, starting at the key's
/// whitespace.
pub open spec fn sp_member(s: Seq<char>, i: int) -> Option<((Seq<char>, InnerView), int)> {
    let j = sp_ws(s, i);
    match sp_string(s, j) {
        Some((key, m)) => {
            let c = sp_ws(s, m);
            if 0 <= c < s.len() && s[c] == ':' {
                match sp_inner(s, sp_ws(s, c + 1)) {
                    Some((v, e)) => Some(((key, v), e)),
                    None => None,
                }
            } else {
                None
            }
        },
        None => None,
    }
}

/// The members of a nested object after its first member.
pub open spec fn sp_obj_rest(s: Seq<char>, i: int) -> Option<(
    Seq<(Seq<char>, InnerView)>,
    int,
)>
    decreases s.len() - i,
{
    let j = sp_ws(s, i);
    if !(i <= j < s.len()) {
        None
    } else if s[j] == '}' {
        Some((Seq::empty(), j + 1))
    } else if s[j] == ',' {
        match sp_member(s, j + 1) {
            Some((m, e)) => if i < e <= s.len() {
                match sp_obj_rest(s, e) {
                    Some((rest, e2)) => Some((seq![m] + rest, e2)),
                    None => None,
                }
            } else {
                None
            },
            None => None,
        }
    } else {
        None
    }
}

/// A nested object's members, from just after its `{`.
pub open spec fn sp_obj_members(s: Seq<char>, i: int) -> Option<(
    Seq<(Seq<char>, InnerView)>,
    int,
)> {
    let j = sp_ws(s, i);
    if !(0 <= i && i <= j < s.len()) {
        None
    } else if s[j] == '}' {
        Some((Seq::empty(), j + 1))
    } else {
        match sp_member(s, i) {
            Some((m, e)) => if i < e <= s.len() {
                match sp_obj_rest(s, e) {
                    Some((rest, e2)) => Some((seq![m] + rest, e2)),
                    None => None,
                }
            } else {
                None
            },
            None => None,
        }
    }
}

/// A top-level member value at `i`: a scalar, a row list, or one nested
/// object.
pub open spec fn sp_val(s: Seq<char>, i: int) -> Option<(ValView, int)> {
    if !(0 <= i < s.len()) {
        None
    } else if s[i] == '{' {
        match sp_obj_members(s, i + 1) {
            Some((ms, e)) => Some((ValView::Obj(ms), e)),
            None => None,
        }
    } else if s[i] == '[' {
        match sp_rows(s, i) {
            Some((t, e)) => Some((ValView::Rows(t), e)),
            None => None,
        }
    } else {
        match sp_prim(s, i) {
            Some((p, e)) => Some((ValView::Prim(p), e)),
            None => None,
        }
    }
}

/// One `"key": value` member of the top-level object.
pub open spec fn sp_top_member(s: Seq<char>, i: int) -> Option<((Seq<char>, ValView), int)> {
    let j = sp_ws(s, i);
    match sp_string(s, j) {
        Some((key, m)) => {
            let c = sp_ws(s, m);
            if 0 <= c < s.len() && s[c] == ':' {
                match sp_val(s, sp_ws(s, c + 1)) {
                    Some((v, e)) => Some(((key, v), e)),
                    None => None,
                }
            } else {
                None
            }
        },
        None => None,
    }
}

/// The top-level object's members after its first member.
pub open spec fn sp_top_rest(s: Seq<char>, i: int) -> Option<(Seq<(Seq<char>, ValView)>, int)>
    decreases s.len() - i,
{
    let j = sp_ws(s, i);
    if !(i <= j < s.len()) {
        None
    } else if s[j] == '}' {
        Some((Seq::empty(), j + 1))
    } else if s[j] == ',' {
        match sp_top_member(s, j + 1) {
            Some((m, e)) => if i < e <= s.len() {
                match sp_top_rest(s, e) {
                    Some((rest, e2)) => Some((seq![m] + rest, e2)),
                    None => None,
                }
            } else {
                None
            },
            None => None,
        }
    } else {
        None
    }
}

/// The top-level object's members, from just after its `{`.
pub open spec fn sp_top_members(s: Seq<char>, i: int) -> Option<(Seq<(Seq<char>, ValView)>, int)> {
    let j = sp_ws(s, i);
    if !(0 <= i && i <= j < s.len()) {
        None
    } else if s[j] == '}' {
        Some((Seq::empty(), j + 1))
    } else {
        match sp_top_member(s, i) {
            Some((m, e)) => if i < e <= s.len() {
                match sp_top_rest(s, e) {
                    Some((rest, e2)) => Some((seq![m] + rest, e2)),
                    None => None,
                }
            } else {
                None
            },
            None => None,
        }
    }
}

/// The value under the first member named `key`, if any.
pub open spec fn sp_find<V>(ms: Seq<(Seq<char>, V)>, key: Seq<char>) -> Option<V>
    decreases ms.len(),
{
    if ms.len() == 0 {
        None
    } else if ms[0].0 == key {
        Some(ms[0].1)
    } else {
        sp_find(ms.drop_first(), key)
    }
}

/// Find the first top-level member named `key`.
pub fn find_val(ms: &Vec<(String, Val)>, key: &str) -> (r: Option<usize>)
    ensures
        match r {
            Some(i) => 0 <= i < ms@.len() && ms@[i as int].0@ == key@ && sp_find(
                message_view(ms@),
                key@,
            ) == Some(ms@[i as int].1@),
            None => sp_find(message_view(ms@), key@) is None,
        },
{
    let n = ms.len();
    proof {
        assert(message_view(ms@).subrange(0, n as int) =~= message_view(ms@));
    }
    let mut i: usize = 0;
    while i < n
        invariant
            0 <= i <= n == ms@.len(),
            sp_find(message_view(ms@), key@) == sp_find(
                message_view(ms@).subrange(i as int, n as int),
                key@,
            ),
            forall|k: int| 0 <= k < i ==> (#[trigger] ms@[k]).0@ != key@,
        decreases n - i,
    {
        if crate::text::str_eq(ms[i].0.as_str(), key) {
            proof {
                assert(message_view(ms@).subrange(i as int, n as int)[0] == (
                    ms@[i as int].0@,
                    ms@[i as int].1@,
                ));
            }
            return Some(i);
        }
        proof {
            assert(message_view(ms@).subrange(i as int, n as int).drop_first() =~= message_view(
                ms@,
            ).subrange(i + 1, n as int));
            assert(message_view(ms@).subrange(i as int, n as int)[0] == (
                ms@[i as int].0@,
                ms@[i as int].1@,
            ));
        }
        i = i + 1;
    }
    proof {
        assert(message_view(ms@).subrange(n as int, n as int) =~= Seq::<(
            Seq<char>,
            ValView,
        )>::empty());
    }
    None
}

/// Find the first nested-object member named `key`.
pub fn find_inner(ms: &Vec<(String, Inner)>, key: &str) -> (r: Option<usize>)
    ensures
        match r {
            Some(i) => 0 <= i < ms@.len() && ms@[i as int].0@ == key@ && sp_find(
                members_view(ms@),
                key@,
            ) == Some(ms@[i as int].1@),
            None => sp_find(members_view(ms@), key@) is None,
        },
{
    let n = ms.len();
    proof {
        assert(members_view(ms@).subrange(0, n as int) =~= members_view(ms@));
    }
    let mut i: usize = 0;
    while i < n
        invariant
            0 <= i <= n == ms@.len(),
            sp_find(members_view(ms@), key@) == sp_find(
                members_view(ms@).subrange(i as int, n as int),
                key@,
            ),
            forall|k: int| 0 <= k < i ==> (#[trigger] ms@[k]).0@ != key@,
        decreases n - i,
    {
        if crate::text::str_eq(ms[i].0.as_str(), key) {
            proof {
                assert(members_view(ms@).subrange(i as int, n as int)[0] == (
                    ms@[i as int].0@,
                    ms@[i as int].1@,
                ));
            }
            return Some(i);
        }
        proof {
            assert(members_view(ms@).subrange(i as int, n as int).drop_first() =~= members_view(
                ms@,
            ).subrange(i + 1, n as int));
            assert(members_view(ms@).subrange(i as int, n as int)[0] == (
                ms@[i as int].0@,
                ms@[i as int].1@,
            ));
        }
        i = i + 1;
    }
    proof {
        assert(members_view(ms@).subrange(n as int, n as int) =~= Seq::<(
            Seq<char>,
            InnerView,
        )>::empty());
    }
    None
}

/// A clean stretch up to a closing quote is exactly what the string scan
/// yields.
pub proof fn lemma_str_scan_clean(s: Seq<char>, j: int, k: int)
    requires
        0 <= j <= k < s.len(),
        s[k] == '"',
        forall|m: int| j <= m < k ==> s[m] != '"' && s[m] != '\\',
    ensures
        sp_str_scan(s, j) == Some((s.subrange(j, k), k + 1)),
    decreases k - j,
{
    if j == k {
        assert(s.subrange(j, k) =~= Seq::empty());
    } else {
        lemma_str_scan_clean(s, j + 1, k);
        assert(s.subrange(j, k) =~= seq![s[j]] + s.subrange(j + 1, k));
    }
}

/// A stretch that reaches a backslash or the end before any quote makes the
/// string scan fail.
proof fn lemma_str_scan_dirty(s: Seq<char>, j: int, k: int)
    requires
        0 <= j <= k <= s.len(),
        forall|m: int| j <= m < k ==> s[m] != '"' && s[m] != '\\',
        k == s.len() || s[k] == '\\',
    ensures
        sp_str_scan(s, j) is None,
    decreases k - j,
{
    if j < k {
        lemma_str_scan_dirty(s, j + 1, k);
    }
}

/// Skip whitespace from `i`.
fn skip_ws(s: &str, i: usize) -> (r: usize)
    requires
        i <= s@.len(),
    ensures
        r == sp_ws(s@, i as int),
        i <= r <= s@.len(),
{
    let n = s.unicode_len();
    let mut j = i;
    loop
        invariant
            i <= j <= n == s@.len(),
            sp_ws(s@, i as int) == sp_ws(s@, j as int),
        ensures
            j == sp_ws(s@, i as int),
        decreases n - j,
    {
        if j >= n {
            return j;
        }
        let c = s.get_char(j);
        if !(c == ' ' || c == '\n' || c == '\r' || c == '\t') {
            return j;
        }
        j = j + 1;
    }
}

/// Scan the string token at `i`, if one stands there.
fn scan_string(s: &str, i: usize) -> (r: Option<(String, usize)>)
    requires
        i <= s@.len(),
    ensures
        match r {
            Some((t, e)) => sp_string(s@, i as int) == Some((t@, e as int)) && i < e <= s@.len(),
            None => sp_string(s@, i as int) is None,
        },
{
    let n = s.unicode_len();
    if i >= n || s.get_char(i) != '"' {
        return None;
    }
    let mut j = i + 1;
    loop
        invariant
            i + 1 <= j <= n == s@.len(),
            s@[i as int] == '"',
            forall|m: int| i + 1 <= m < j ==> s@[m] != '"' && s@[m] != '\\',
        ensures
            j <= n,
            if j < n && s@[j as int] == '"' {
                sp_str_scan(s@, i + 1) == Some((s@.subrange(i + 1, j as int), j + 1))
            } else {
                sp_str_scan(s@, i + 1) is None
            },
        decreases n - j,
    {
        if j >= n {
            proof {
                lemma_str_scan_dirty(s@, i + 1, n as int);
            }
            break;
        }
        let c = s.get_char(j);
        if c == '"' {
            proof {
                lemma_str_scan_clean(s@, i + 1, j as int);
            }
            break;
        }
        if c == '\\' {
            proof {
                lemma_str_scan_dirty(s@, i + 1, j as int);
            }
            break;
        }
        j = j + 1;
    }
    if j < n && s.get_char(j) == '"' {
        let content = s.substring_char(i + 1, j);
        Some((String::from_str(content), j + 1))
    } else {
        None
    }
}

/// Scan the number token at `i`, if one stands there.
fn scan_number(s: &str, i: usize) -> (r: Option<(String, usize)>)
    requires
        i <= s@.len(),
    ensures
        match r {
            Some((t, e)) => sp_number(s@, i as int) == Some((t@, e as int)) && i < e <= s@.len(),
            None => sp_number(s@, i as int) is None,
        },
{
    let n = s.unicode_len();
    let mut j = i;
    loop
        invariant
            i <= j <= n == s@.len(),
            sp_num_scan(s@, i as int) == sp_num_scan(s@, j as int),
        ensures
            i <= j <= n,
            j == sp_num_scan(s@, i as int),
        decreases n - j,
    {
        if j >= n {
            break;
        }
        let c = s.get_char(j);
        let numeric = match c {
            '0' | '1' | '2' | '3' | '4' | '5' | '6' | '7' | '8' | '9' => true,
            '-' | '+' | '.' | 'e' | 'E' => true,
            _ => false,
        };
        if !numeric {
            break;
        }
        j = j + 1;
    }
    if j > i {
        let t = s.substring_char(i, j);
        Some((String::from_str(t), j))
    } else {
        None
    }
}

/// Does the word `w` stand at `i`?
fn check_lit(s: &str, i: usize, w: &str) -> (r: bool)
    requires
        i <= s@.len(),
    ensures
        r == sp_lit(s@, i as int, w@),
{
    let n = s.unicode_len();
    let wn = w.unicode_len();
    if wn > n - i {
        return false;
    }
    let part = s.substring_char(i, i + wn);
    crate::text::str_eq(part, w)
}

/// Parse the scalar at `i`, if one stands there.
fn parse_prim(s: &str, i: usize) -> (r: Option<(Prim, usize)>)
    requires
        i <= s@.len(),
    ensures
        match r {
            Some((v, e)) => sp_prim(s@, i as int) == Some((v@, e as int)) && i < e <= s@.len(),
            None => sp_prim(s@, i as int) is None,
        },
{
    let n = s.unicode_len();
    if i >= n {
        return None;
    }
    if s.get_char(i) == '"' {
        return match scan_string(s, i) {
            Some((t, e)) => Some((Prim::Str(t), e)),
            None => None,
        };
    }
    if check_lit(s, i, "null") {
        proof {
            reveal_strlit("null");
        }
        return Some((Prim::Null, i + 4));
    }
    if check_lit(s, i, "true") {
        proof {
            reveal_strlit("true");
        }
        return Some((Prim::Bool(true), i + 4));
    }
    if check_lit(s, i, "false") {
        proof {
            reveal_strlit("false");
        }
        return Some((Prim::Bool(false), i + 5));
    }
    match scan_number(s, i) {
        Some((t, e)) => Some((Prim::Num(t), e)),
        None => None,
    }
}

/// Parse the row elements after the first string of a row.
fn parse_row_rest(s: &str, i: usize) -> (r: Option<(Vec<String>, usize)>)
    requires
        i <= s@.len(),
    ensures
        match r {
            Some((v, e)) => sp_row_rest(s@, i as int) == Some((v.deep_view(), e as int)) && i < e
                <= s@.len(),
            None => sp_row_rest(s@, i as int) is None,
        },
    decreases s@.len() - i,
{
    let n = s.unicode_len();
    let j = skip_ws(s, i);
    if j >= n {
        return None;
    }
    let c = s.get_char(j);
    if c == ']' {
        let out: Vec<String> = Vec::new();
        proof {
            assert(out.deep_view() =~= Seq::<Seq<char>>::empty());
        }
        return Some((out, j + 1));
    }
    if c != ',' {
        return None;
    }
    let k = skip_ws(s, j + 1);
    match scan_string(s, k) {
        Some((t, m)) => match parse_row_rest(s, m) {
            Some((rest, e)) => {
                let mut out = rest;
                out.insert(0, t);
                proof {
                    assert(out.deep_view() =~= seq![t@] + out@.subrange(1, out@.len() as int).map_values(
                        |x: String| x.deep_view(),
                    ));
                    assert(out@.subrange(1, out@.len() as int) =~= out@.drop_first());
                    assert(out.deep_view() =~= seq![t@] + rest.deep_view());
                }
                Some((out, e))
            },
            None => None,
        },
        None => None,
    }
}

/// Parse the row at `i`, if one stands there.
fn parse_row(s: &str, i: usize) -> (r: Option<(Vec<String>, usize)>)
    requires
        i <= s@.len(),
    ensures
        match r {
            Some((v, e)) => sp_row(s@, i as int) == Some((v.deep_view(), e as int)) && i < e
                <= s@.len(),
            None => sp_row(s@, i as int) is None,
        },
{
    let n = s.unicode_len();
    if i >= n || s.get_char(i) != '[' {
        return None;
    }
    let j = skip_ws(s, i + 1);
    if j < n && s.get_char(j) == ']' {
        let out: Vec<String> = Vec::new();
        proof {
            assert(out.deep_view() =~= Seq::<Seq<char>>::empty());
        }
        return Some((out, j + 1));
    }
    match scan_string(s, j) {
        Some((t, m)) => match parse_row_rest(s, m) {
            Some((rest, e)) => {
                let mut out = rest;
                out.insert(0, t);
                proof {
                    assert(out.deep_view() =~= seq![t@] + out@.drop_first().map_values(
                        |x: String| x.deep_view(),
                    ));
                    assert(out@.drop_first() =~= rest@);
                    assert(out.deep_view() =~= seq![t@] + rest.deep_view());
                }
                Some((out, e))
            },
            None => None,
        },
        None => None,
    }
}

/// Parse the rows after the first row of a row list.
fn parse_rows_rest(s: &str, i: usize) -> (r: Option<(Vec<Vec<String>>, usize)>)
    requires
        i <= s@.len(),
    ensures
        match r {
            Some((v, e)) => sp_rows_rest(s@, i as int) == Some((rows_view(v@), e as int)) && i < e
                <= s@.len(),
            None => sp_rows_rest(s@, i as int) is None,
        },
    decreases s@.len() - i,
{
    let n = s.unicode_len();
    let j = skip_ws(s, i);
    if j >= n {
        return None;
    }
    let c = s.get_char(j);
    if c == ']' {
        let out: Vec<Vec<String>> = Vec::new();
        proof {
            assert(rows_view(out@) =~= Seq::<Seq<Seq<char>>>::empty());
        }
        return Some((out, j + 1));
    }
    if c != ',' {
        return None;
    }
    let k = skip_ws(s, j + 1);
    match parse_row(s, k) {
        Some((t, m)) => match parse_rows_rest(s, m) {
            Some((rest, e)) => {
                let ghost trow = t.deep_view();
                let mut out = rest;
                out.insert(0, t);
                proof {
                    assert(out@.drop_first() =~= rest@);
                    assert(rows_view(out@) =~= seq![trow] + rows_view(rest@));
                }
                Some((out, e))
            },
            None => None,
        },
        None => None,
    }
}

/// Parse the row list at `i`, if one stands there.
fn parse_rows(s: &str, i: usize) -> (r: Option<(Vec<Vec<String>>, usize)>)
    requires
        i <= s@.len(),
    ensures
        match r {
            Some((v, e)) => sp_rows(s@, i as int) == Some((rows_view(v@), e as int)) && i < e
                <= s@.len(),
            None => sp_rows(s@, i as int) is None,
        },
{
    let n = s.unicode_len();
    if i >= n || s.get_char(i) != '[' {
        return None;
    }
    let j = skip_ws(s, i + 1);
    if j < n && s.get_char(j) == ']' {
        let out: Vec<Vec<String>> = Vec::new();
        proof {
            assert(rows_view(out@) =~= Seq::<Seq<Seq<char>>>::empty());
        }
        return Some((out, j + 1));
    }
    match parse_row(s, j) {
        Some((t, m)) => match parse_rows_rest(s, m) {
            Some((rest, e)) => {
                let ghost trow = t.deep_view();
                let mut out = rest;
                out.insert(0, t);
                proof {
                    assert(out@.drop_first() =~= rest@);
                    assert(rows_view(out@) =~= seq![trow] + rows_view(rest@));
                }
                Some((out, e))
            },
            None => None,
        },
        None => None,
    }
}

/// Parse the nested-object member value at `i`.
fn parse_inner(s: &str, i: usize) -> (r: Option<(Inner, usize)>)
    requires
        i <= s@.len(),
    ensures
        match r {
            Some((v, e)) => sp_inner(s@, i as int) == Some((v@, e as int)) && i < e <= s@.len(),
            None => sp_inner(s@, i as int) is None,
        },
{
    let n = s.unicode_len();
    if i >= n {
        return None;
    }
    if s.get_char(i) == '[' {
        match parse_rows(s, i) {
            Some((t, e)) => Some((Inner::Rows(t), e)),
            None => None,
        }
    } else {
        match parse_prim(s, i) {
            Some((p, e)) => Some((Inner::Prim(p), e)),
            None => None,
        }
    }
}

/// Parse one `"key": value` member of a nested object.
fn parse_member(s: &str, i: usize) -> (r: Option<((String, Inner), usize)>)
    requires
        i <= s@.len(),
    ensures
        match r {
            Some((m, e)) => sp_member(s@, i as int) == Some(((m.0@, m.1@), e as int)) && i < e
                <= s@.len(),
            None => sp_member(s@, i as int) is None,
        },
{
    let n = s.unicode_len();
    let j = skip_ws(s, i);
    match scan_string(s, j) {
        Some((key, m)) => {
            let c = skip_ws(s, m);
            if c < n && s.get_char(c) == ':' {
                let v_at = skip_ws(s, c + 1);
                match parse_inner(s, v_at) {
                    Some((v, e)) => Some(((key, v), e)),
                    None => None,
                }
            } else {
                None
            }
        },
        None => None,
    }
}

/// Parse the members of a nested object after its first member.
fn parse_obj_rest(s: &str, i: usize) -> (r: Option<(Vec<(String, Inner)>, usize)>)
    requires
        i <= s@.len(),
    ensures
        match r {
            Some((v, e)) => sp_obj_rest(s@, i as int) == Some((members_view(v@), e as int)) && i < e
                <= s@.len(),
            None => sp_obj_rest(s@, i as int) is None,
        },
    decreases s@.len() - i,
{
    let n = s.unicode_len();
    let j = skip_ws(s, i);
    if j >= n {
        return None;
    }
    let c = s.get_char(j);
    if c == '}' {
        let out: Vec<(String, Inner)> = Vec::new();
        proof {
            assert(members_view(out@) =~= Seq::<(Seq<char>, InnerView)>::empty());
        }
        return Some((out, j + 1));
    }
    if c != ',' {
        return None;
    }
    match parse_member(s, j + 1) {
        Some((m, e)) => match parse_obj_rest(s, e) {
            Some((rest, e2)) => {
                let ghost mv = (m.0@, m.1@);
                let mut out = rest;
                out.insert(0, m);
                proof {
                    assert(out@.drop_first() =~= rest@);
                    assert(members_view(out@) =~= seq![mv] + members_view(rest@));
                }
                Some((out, e2))
            },
            None => None,
        },
        None => None,
    }
}

/// Parse a nested object's members, from just after its `{`.
fn parse_obj_members(s: &str, i: usize) -> (r: Option<(Vec<(String, Inner)>, usize)>)
    requires
        i <= s@.len(),
    ensures
        match r {
            Some((v, e)) => sp_obj_members(s@, i as int) == Some((members_view(v@), e as int)) && i
                < e <= s@.len(),
            None => sp_obj_members(s@, i as int) is None,
        },
{
    let n = s.unicode_len();
    let j = skip_ws(s, i);
    if j >= n {
        return None;
    }
    if s.get_char(j) == '}' {
        let out: Vec<(String, Inner)> = Vec::new();
        proof {
            assert(members_view(out@) =~= Seq::<(Seq<char>, InnerView)>::empty());
        }
        return Some((out, j + 1));
    }
    match parse_member(s, i) {
        Some((m, e)) => match parse_obj_rest(s, e) {
            Some((rest, e2)) => {
                let ghost mv = (m.0@, m.1@);
                let mut out = rest;
                out.insert(0, m);
                proof {
                    assert(out@.drop_first() =~= rest@);
                    assert(members_view(out@) =~= seq![mv] + members_view(rest@));
                }
                Some((out, e2))
            },
            None => None,
        },
        None => None,
    }
}

/// Parse the top-level member value at `i`.
fn parse_val(s: &str, i: usize) -> (r: Option<(Val, usize)>)
    requires
        i <= s@.len(),
    ensures
        match r {
            Some((v, e)) => sp_val(s@, i as int) == Some((v@, e as int)) && i < e <= s@.len(),
            None => sp_val(s@, i as int) is None,
        },
{
    let n = s.unicode_len();
    if i >= n {
        return None;
    }
    let c = s.get_char(i);
    if c == '{' {
        match parse_obj_members(s, i + 1) {
            Some((ms, e)) => Some((Val::Obj(ms), e)),
            None => None,
        }
    } else if c == '[' {
        match parse_rows(s, i) {
            Some((t, e)) => Some((Val::Rows(t), e)),
            None => None,
        }
    } else {
        match parse_prim(s, i) {
            Some((p, e)) => Some((Val::Prim(p), e)),
            None => None,
        }
    }
}

/// Parse one `"key": value` member of the top-level object.
fn parse_top_member(s: &str, i: usize) -> (r: Option<((String, Val), usize)>)
    requires
        i <= s@.len(),
    ensures
        match r {
            Some((m, e)) => sp_top_member(s@, i as int) == Some(((m.0@, m.1@), e as int)) && i < e
                <= s@.len(),
            None => sp_top_member(s@, i as int) is None,
        },
{
    let n = s.unicode_len();
    let j = skip_ws(s, i);
    match scan_string(s, j) {
        Some((key, m)) => {
            let c = skip_ws(s, m);
            if c < n && s.get_char(c) == ':' {
                let v_at = skip_ws(s, c + 1);
                match parse_val(s, v_at) {
                    Some((v, e)) => Some(((key, v), e)),
                    None => None,
                }
            } else {
                None
            }
        },
        None => None,
    }
}

/// Parse the top-level members after the first member.
fn parse_top_rest(s: &str, i: usize) -> (r: Option<(Vec<(String, Val)>, usize)>)
    requires
        i <= s@.len(),
    ensures
        match r {
            Some((v, e)) => sp_top_rest(s@, i as int) == Some((message_view(v@), e as int)) && i < e
                <= s@.len(),
            None => sp_top_rest(s@, i as int) is None,
        },
    decreases s@.len() - i,
{
    let n = s.unicode_len();
    let j = skip_ws(s, i);
    if j >= n {
        return None;
    }
    let c = s.get_char(j);
    if c == '}' {
        let out: Vec<(String, Val)> = Vec::new();
        proof {
            assert(message_view(out@) =~= Seq::<(Seq<char>, ValView)>::empty());
        }
        return Some((out, j + 1));
    }
    if c != ',' {
        return None;
    }
    match parse_top_member(s, j + 1) {
        Some((m, e)) => match parse_top_rest(s, e) {
            Some((rest, e2)) => {
                let ghost mv = (m.0@, m.1@);
                let mut out = rest;
                out.insert(0, m);
                proof {
                    assert(out@.drop_first() =~= rest@);
                    assert(message_view(out@) =~= seq![mv] + message_view(rest@));
                }
                Some((out, e2))
            },
            None => None,
        },
        None => None,
    }
}

/// Parse the top-level members, from just after the `{`.
fn parse_top_members(s: &str, i: usize) -> (r: Option<(Vec<(String, Val)>, usize)>)
    requires
        i <= s@.len(),
    ensures
        match r {
            Some((v, e)) => sp_top_members(s@, i as int) == Some((message_view(v@), e as int)) && i
                < e <= s@.len(),
            None => sp_top_members(s@, i as int) is None,
        },
{
    let n = s.unicode_len();
    let j = skip_ws(s, i);
    if j >= n {
        return None;
    }
    if s.get_char(j) == '}' {
        let out: Vec<(String, Val)> = Vec::new();
        proof {
            assert(message_view(out@) =~= Seq::<(Seq<char>, ValView)>::empty());
        }
        return Some((out, j + 1));
    }
    match parse_top_member(s, i) {
        Some((m, e)) => match parse_top_rest(s, e) {
            Some((rest, e2)) => {
                let ghost mv = (m.0@, m.1@);
                let mut out = rest;
                out.insert(0, m);
                proof {
                    assert(out@.drop_first() =~= rest@);
                    assert(message_view(out@) =~= seq![mv] + message_view(rest@));
                }
                Some((out, e2))
            },
            None => None,
        },
        None => None,
    }
}

/// Parse a whole message: one top-level object with nothing but whitespace
/// around it.
pub fn parse_message(s: &str) -> (r: Option<Vec<(String, Val)>>)
    ensures
        match r {
            Some(v) => sp_message(s@) == Some(message_view(v@)),
            None => sp_message(s@) is None,
        },
{
    let n = s.unicode_len();
    let i = skip_ws(s, 0);
    if i >= n || s.get_char(i) != '{' {
        return None;
    }
    match parse_top_members(s, i + 1) {
        Some((ms, e)) => {
            if skip_ws(s, e) == n {
                Some(ms)
            } else {
                None
            }
        },
        None => None,
    }
}

/// A whole message: one top-level object and nothing but whitespace around
/// it.
pub open spec fn sp_message(s: Seq<char>) -> Option<Seq<(Seq<char>, ValView)>> {
    let i = sp_ws(s, 0);
    if 0 <= i < s.len() && s[i] == '{' {
        match sp_top_members(s, i + 1) {
            Some((ms, e)) => if sp_ws(s, e) == s.len() {
                Some(ms)
            } else {
                None
            },
            None => None,
        }
    } else {
        None
    }
}

} // verus!
