//! Query text handed to the engine.
use vstd::prelude::*;
use crate::decimal::{decimal_text, push_unsigned};

verus! {

/// A column name in double quotes, cast to text.
pub open spec fn cast_column(name: Seq<char>) -> Seq<char> {
    "\""@ + name + "\"::VARCHAR"@
}

/// The casts of `names`, in order, separated by `, `.
pub open spec fn cast_list(names: Seq<Seq<char>>) -> Seq<char>
    decreases names.len(),
{
    if names.len() == 0 {
        Seq::empty()
    } else if names.len() == 1 {
        cast_column(names[0])
    } else {
        cast_list(names.drop_last()) + ", "@ + cast_column(names.last())
    }
}

/// Whether a sort direction token is `desc` in any mix of letter case.
pub open spec fn is_descending(order: Seq<char>) -> bool {
    &&& order.len() == 4
    &&& (order[0] == 'd' || order[0] == 'D')
    &&& (order[1] == 'e' || order[1] == 'E')
    &&& (order[2] == 's' || order[2] == 'S')
    &&& (order[3] == 'c' || order[3] == 'C')
}

/// The direction keyword for a sort direction token.
pub open spec fn direction_keyword(order: Seq<char>) -> Seq<char> {
    if is_descending(order) {
        "DESC"@
    } else {
        "ASC"@
    }
}

/// The ordering clause: present only when both a column and a direction are
/// given.
pub open spec fn order_clause_text(
    sort_col: Option<Seq<char>>,
    sort_order: Option<Seq<char>>,
) -> Seq<char> {
    match (sort_col, sort_order) {
        (Some(c), Some(o)) => "ORDER BY \""@ + c + "\" "@ + direction_keyword(o),
        _ => Seq::empty(),
    }
}

/// The page query over a file.
pub open spec fn page_query_text(
    file_path: Seq<char>,
    names: Seq<Seq<char>>,
    order: Seq<char>,
    limit: nat,
    offset: nat,
) -> Seq<char> {
    "SELECT "@ + cast_list(names) + " FROM '"@ + file_path + "' "@ + order + " LIMIT "@
        + decimal_text(limit) + " OFFSET "@ + decimal_text(offset)
}

/// The view of an optional string.
pub open spec fn opt_view(o: Option<String>) -> Option<Seq<char>> {
    match o {
        Some(s) => Some(s@),
        None => None,
    }
}

/// The views of a list of strings.
pub open spec fn names_view(names: Seq<String>) -> Seq<Seq<char>> {
    names.map_values(|s: String| s@)
}

/// Characters that std counts as white space (Unicode `White_Space`).
pub open spec fn is_space(c: char) -> bool {
    ||| '\t' <= c <= '\r'
    ||| c == ' '
    ||| c == '\u{85}'
    ||| c == '\u{A0}'
    ||| c == '\u{1680}'
    ||| '\u{2000}' <= c <= '\u{200A}'
    ||| c == '\u{2028}'
    ||| c == '\u{2029}'
    ||| c == '\u{202F}'
    ||| c == '\u{205F}'
    ||| c == '\u{3000}'
}

/// `s` without its leading white space.
pub open spec fn trim_start(s: Seq<char>) -> Seq<char>
    decreases s.len(),
{
    if s.len() > 0 && is_space(s[0]) {
        trim_start(s.drop_first())
    } else {
        s
    }
}

/// `s` without its trailing white space.
pub open spec fn trim_end(s: Seq<char>) -> Seq<char>
    decreases s.len(),
{
    if s.len() > 0 && is_space(s.last()) {
        trim_end(s.drop_last())
    } else {
        s
    }
}

/// A user query without surrounding white space and without one trailing
/// statement terminator.
pub open spec fn clean_query_text(q: Seq<char>) -> Seq<char> {
    let t = trim_end(trim_start(q));
    if t.len() > 0 && t.last() == ';' {
        t.drop_last()
    } else {
        t
    }
}

fn is_space_char(c: char) -> (r: bool)
    ensures
        r == is_space(c),
{
    ('\t' <= c && c <= '\r') || c == ' ' || c == '\u{85}' || c == '\u{A0}' || c == '\u{1680}'
        || ('\u{2000}' <= c && c <= '\u{200A}') || c == '\u{2028}' || c == '\u{2029}' || c
        == '\u{202F}' || c == '\u{205F}' || c == '\u{3000}'
}

/// Whether `order` asks for descending order.
pub fn sort_descending(order: &str) -> (r: bool)
    ensures
        r == is_descending(order@),
{
    if order.unicode_len() != 4 {
        return false;
    }
    let a = order.get_char(0);
    let b = order.get_char(1);
    let c = order.get_char(2);
    let d = order.get_char(3);
    (a == 'd' || a == 'D') && (b == 'e' || b == 'E') && (c == 's' || c == 'S') && (d == 'c' || d
        == 'C')
}

/// The casts of `names` to text, separated by `, `.
pub fn select_casts(names: &Vec<String>) -> (r: String)
    ensures
        r@ == cast_list(names_view(names@)),
{
    proof {
        reveal_strlit("\"");
        reveal_strlit("\"::VARCHAR");
        reveal_strlit(", ");
    }
    let mut out = String::new();
    let mut i: usize = 0;
    while i < names.len()
        invariant
            i <= names@.len(),
            out@ == cast_list(names_view(names@.subrange(0, i as int))),
        decreases names@.len() - i,
    {
        let ghost before = out@;
        if i > 0 {
            out.append(", ");
        }
        out.append("\"");
        out.append(names[i].as_str());
        out.append("\"::VARCHAR");
        proof {
            let prefix = names_view(names@.subrange(0, i as int));
            let next = names_view(names@.subrange(0, i + 1));
            assert(next.drop_last() =~= prefix);
            assert(next.last() == names@[i as int]@);
            if i == 0 {
                assert(next.len() == 1);
                assert(next[0] == names@[0]@);
                assert(out@ =~= cast_column(names@[0]@));
            } else {
                assert(out@ =~= before + ", "@ + cast_column(next.last()));
            }
        }
        i = i + 1;
    }
    assert(names@.subrange(0, names@.len() as int) =~= names@);
    out
}

/// The ordering clause: `ORDER BY "<column>" DESC` or `... ASC` when both a
/// column and a direction are given, empty otherwise.
pub fn order_clause(sort_col: &Option<String>, sort_order: &Option<String>) -> (r: String)
    ensures
        r@ == order_clause_text(opt_view(*sort_col), opt_view(*sort_order)),
{
    proof {
        reveal_strlit("ORDER BY \"");
        reveal_strlit("\" ");
        reveal_strlit("DESC");
        reveal_strlit("ASC");
    }
    match (sort_col, sort_order) {
        (Some(col), Some(order)) => {
            let mut out = String::from_str("ORDER BY \"");
            out.append(col.as_str());
            out.append("\" ");
            if sort_descending(order.as_str()) {
                out.append("DESC");
            } else {
                out.append("ASC");
            }
            assert(out@ =~= order_clause_text(opt_view(*sort_col), opt_view(*sort_order)));
            out
        },
        _ => String::new(),
    }
}

/// The query for one page of a file: each requested column cast to text,
/// the ordering clause, then `LIMIT` and `OFFSET`.
pub fn page_query(
    file_path: &str,
    names: &Vec<String>,
    sort_col: &Option<String>,
    sort_order: &Option<String>,
    limit: usize,
    offset: usize,
) -> (r: String)
    ensures
        r@ == page_query_text(
            file_path@,
            names_view(names@),
            order_clause_text(opt_view(*sort_col), opt_view(*sort_order)),
            limit as nat,
            offset as nat,
        ),
{
    proof {
        reveal_strlit("SELECT ");
        reveal_strlit(" FROM '");
        reveal_strlit("' ");
        reveal_strlit(" LIMIT ");
        reveal_strlit(" OFFSET ");
    }
    let casts = select_casts(names);
    let order = order_clause(sort_col, sort_order);
    let mut out = String::from_str("SELECT ");
    out.append(casts.as_str());
    out.append(" FROM '");
    out.append(file_path);
    out.append("' ");
    out.append(order.as_str());
    out.append(" LIMIT ");
    push_unsigned(&mut out, limit as u128);
    out.append(" OFFSET ");
    push_unsigned(&mut out, offset as u128);
    assert(out@ =~= page_query_text(
        file_path@,
        names_view(names@),
        order@,
        limit as nat,
        offset as nat,
    ));
    out
}

/// The query that describes the columns of a file.
pub fn schema_query(file_path: &str) -> (r: String)
    ensures
        r@ == "DESCRIBE SELECT * FROM '"@ + file_path@ + "';"@,
{
    let mut out = String::from_str("DESCRIBE SELECT * FROM '");
    out.append(file_path);
    out.append("';");
    out
}

/// The query that counts the rows of a file.
pub fn row_count_query(file_path: &str) -> (r: String)
    ensures
        r@ == "SELECT COUNT(*) FROM '"@ + file_path@ + "';"@,
{
    let mut out = String::from_str("SELECT COUNT(*) FROM '");
    out.append(file_path);
    out.append("';");
    out
}

/// The statement that makes a file queryable as the view `t`.
pub fn view_statement(file_path: &str) -> (r: String)
    ensures
        r@ == "CREATE OR REPLACE VIEW t AS SELECT * FROM '"@ + file_path@ + "';"@,
{
    let mut out = String::from_str("CREATE OR REPLACE VIEW t AS SELECT * FROM '");
    out.append(file_path);
    out.append("';");
    out
}

proof fn lemma_trim_start_step(s: Seq<char>, i: int)
    requires
        0 <= i < s.len(),
        is_space(s[i]),
    ensures
        trim_start(s.subrange(i, s.len() as int)) == trim_start(s.subrange(i + 1, s.len() as int)),
{
    let t = s.subrange(i, s.len() as int);
    assert(t.drop_first() =~= s.subrange(i + 1, s.len() as int));
}

proof fn lemma_trim_end_step(s: Seq<char>, j: int)
    requires
        0 < j <= s.len(),
        is_space(s[j - 1]),
    ensures
        trim_end(s.subrange(0, j)) == trim_end(s.subrange(0, j - 1)),
{
    let t = s.subrange(0, j);
    assert(t.drop_last() =~= s.subrange(0, j - 1));
}

/// A user query without surrounding white space and one trailing `;`.
pub fn clean_query(q: &str) -> (r: String)
    ensures
        r@ == clean_query_text(q@),
{
    let n = q.unicode_len();
    let mut i: usize = 0;
    assert(q@.subrange(0, n as int) =~= q@);
    while i < n && is_space_char(q.get_char(i))
        invariant
            n == q@.len(),
            i <= n,
            trim_start(q@) == trim_start(q@.subrange(i as int, n as int)),
        decreases n - i,
    {
        proof {
            lemma_trim_start_step(q@, i as int);
        }
        i = i + 1;
    }
    let ghost front = q@.subrange(i as int, n as int);
    assert(trim_start(q@) == front);
    let mut j: usize = n;
    assert(front.subrange(0, n - i) =~= front);
    while j > i && is_space_char(q.get_char(j - 1))
        invariant
            n == q@.len(),
            i <= j <= n,
            front == q@.subrange(i as int, n as int),
            trim_end(front) == trim_end(front.subrange(0, j - i)),
        decreases j,
    {
        proof {
            assert(front[j - i - 1] == q@[j - 1]);
            lemma_trim_end_step(front, j - i);
        }
        j = j - 1;
    }
    let ghost core = front.subrange(0, j - i);
    assert(core =~= q@.subrange(i as int, j as int));
    assert(trim_end(front) == core);
    if j > i && q.get_char(j - 1) == ';' {
        j = j - 1;
    }
    let r = String::from_str(q.substring_char(i, j));
    assert(r@ =~= clean_query_text(q@));
    r
}

/// A query that counts the rows of a user query.
pub fn count_query(clean: &str) -> (r: String)
    ensures
        r@ == "SELECT COUNT(*) FROM ("@ + clean@ + ")"@,
{
    let mut out = String::from_str("SELECT COUNT(*) FROM (");
    out.append(clean);
    out.append(")");
    out
}

/// A query that describes the columns of a user query.
pub fn describe_query(clean: &str) -> (r: String)
    ensures
        r@ == "DESCRIBE SELECT * FROM ("@ + clean@ + ")"@,
{
    let mut out = String::from_str("DESCRIBE SELECT * FROM (");
    out.append(clean);
    out.append(")");
    out
}

/// One slice of a user query.
pub fn sliced_query(clean: &str, limit: usize, offset: usize) -> (r: String)
    ensures
        r@ == "SELECT * FROM ("@ + clean@ + ") LIMIT "@ + decimal_text(limit as nat) + " OFFSET "@
            + decimal_text(offset as nat),
{
    let mut out = String::from_str("SELECT * FROM (");
    out.append(clean);
    out.append(") LIMIT ");
    push_unsigned(&mut out, limit as u128);
    out.append(" OFFSET ");
    push_unsigned(&mut out, offset as u128);
    out
}

} // verus!
