use vstd::prelude::*;

use crate::text::{chars_of, holds_text};

verus! {

/// Query-string parameters for listing todos: paging, search, completion filter and sort.
pub struct FilterPaginationQuery {
    pub page: Option<i64>,
    pub limit: Option<i64>,
    pub search_field: Option<String>,
    pub search_value: Option<String>,
    pub completed: Option<String>,
    pub sort_field: Option<String>,
    pub sort_order: Option<String>,
}

/// Paging information returned beside a page of todos.
pub struct PaginationMeta {
    pub page: i64,
    pub limit: i64,
    pub total_records: i64,
    pub total_pages: i64,
}

/// The page asked for, 1 when absent, and never below 1.
pub open spec fn normalized_page(page: Option<i64>) -> i64 {
    let p = match page {
        Some(p) => p,
        None => 1,
    };
    if p < 1 {
        1
    } else {
        p
    }
}

/// The page size asked for, 10 when absent, clamped into 1..=100.
pub open spec fn normalized_limit(limit: Option<i64>) -> i64 {
    let l = match limit {
        Some(l) => l,
        None => 10,
    };
    if l < 1 {
        1
    } else if l > 100 {
        100
    } else {
        l
    }
}

/// The pieces of a text between commas (`str::split(",")`): always at least one piece.
pub open spec fn comma_pieces(s: Seq<char>) -> Seq<Seq<char>>
    decreases s.len(),
{
    if s.len() == 0 {
        seq![Seq::<char>::empty()]
    } else {
        let p = comma_pieces(s.drop_last());
        if s.last() == ',' {
            p.push(Seq::<char>::empty())
        } else {
            p.update(p.len() - 1, p.last().push(s.last()))
        }
    }
}

/// `bool`'s `FromStr`: exactly "true" or "false".
pub open spec fn parse_bool(p: Seq<char>) -> Option<bool> {
    if p == "true"@ {
        Some(true)
    } else if p == "false"@ {
        Some(false)
    } else {
        None
    }
}

/// The booleans among the pieces, in order; pieces that are not booleans are dropped.
pub open spec fn parsed_bools(pieces: Seq<Seq<char>>) -> Seq<bool>
    decreases pieces.len(),
{
    if pieces.len() == 0 {
        Seq::empty()
    } else {
        let rest = parsed_bools(pieces.drop_last());
        match parse_bool(pieces.last()) {
            Some(b) => rest.push(b),
            None => rest,
        }
    }
}

/// The completion filter read from a comma-separated list.
pub open spec fn completed_filter(s: Seq<char>) -> Seq<bool> {
    parsed_bools(comma_pieces(s))
}

/// The column to sort by: one of four known columns, `created_at` otherwise.
pub open spec fn sort_column(field: Option<String>) -> Seq<char> {
    match field {
        Some(f) => if f@ == "title"@ {
            "title"@
        } else if f@ == "description"@ {
            "description"@
        } else if f@ == "completed"@ {
            "completed"@
        } else {
            "created_at"@
        },
        None => "created_at"@,
    }
}

/// The sort direction: "asc" gives ASC, anything else DESC.
pub open spec fn sort_direction(order: Option<String>) -> Seq<char> {
    match order {
        Some(o) => if o@ == "asc"@ {
            "ASC"@
        } else {
            "DESC"@
        },
        None => "DESC"@,
    }
}

proof fn lemma_comma_pieces_nonempty(s: Seq<char>)
    ensures
        comma_pieces(s).len() >= 1,
    decreases s.len(),
{
    if s.len() > 0 {
        lemma_comma_pieces_nonempty(s.drop_last());
    }
}

/// Reads a piece as a boolean, as `str::parse::<bool>` does.
fn parse_bool_piece(p: &Vec<char>) -> (r: Option<bool>)
    ensures
        r == parse_bool(p@),
{
    proof {
        reveal_strlit("true");
        reveal_strlit("false");
    }
    if p.len() == 4 && p[0] == 't' && p[1] == 'r' && p[2] == 'u' && p[3] == 'e' {
        assert(p@ =~= "true"@);
        Some(true)
    } else if p.len() == 5 && p[0] == 'f' && p[1] == 'a' && p[2] == 'l' && p[3] == 's'
        && p[4] == 'e' {
        assert(p@ =~= "false"@);
        Some(false)
    } else {
        proof {
            if p@ == "true"@ {
                assert(p@.len() == 4 && p@[0] == 't' && p@[1] == 'r' && p@[2] == 'u'
                    && p@[3] == 'e');
            }
            if p@ == "false"@ {
                assert(p@.len() == 5 && p@[0] == 'f' && p@[1] == 'a' && p@[2] == 'l'
                    && p@[3] == 's' && p@[4] == 'e');
            }
        }
        None
    }
}

/// The booleans of a comma-separated list, in order.
pub fn parse_completed_list(s: &str) -> (r: Vec<bool>)
    ensures
        r@ == completed_filter(s@),
{
    let chars = chars_of(s);
    let mut done: Vec<bool> = Vec::new();
    let mut cur: Vec<char> = Vec::new();
    let mut i: usize = 0;
    proof {
        assert(s@.take(0) =~= Seq::<char>::empty());
    }
    while i < chars.len()
        invariant
            chars@ == s@,
            i <= chars.len(),
            comma_pieces(s@.take(i as int)).len() >= 1,
            cur@ == comma_pieces(s@.take(i as int)).last(),
            done@ == parsed_bools(comma_pieces(s@.take(i as int)).drop_last()),
        decreases chars.len() - i,
    {
        let c = chars[i];
        let ghost prefix = s@.take(i as int);
        let ghost next = s@.take(i + 1);
        proof {
            assert(next.drop_last() =~= prefix);
            assert(next.last() == c);
            lemma_comma_pieces_nonempty(prefix);
        }
        if c == ',' {
            let b = parse_bool_piece(&cur);
            match b {
                Some(v) => done.push(v),
                None => {},
            }
            cur = Vec::new();
            proof {
                let p = comma_pieces(prefix);
                assert(comma_pieces(next) == p.push(Seq::<char>::empty()));
                assert(comma_pieces(next).drop_last() =~= p);
                assert(p.drop_last().push(p.last()) =~= p);
                assert(cur@ =~= Seq::<char>::empty());
            }
        } else {
            cur.push(c);
            proof {
                let p = comma_pieces(prefix);
                let q = p.update(p.len() - 1, p.last().push(c));
                assert(comma_pieces(next) == q);
                assert(q.drop_last() =~= p.drop_last());
            }
        }
        i += 1;
    }
    proof {
        assert(s@.take(chars.len() as int) =~= s@);
        let p = comma_pieces(s@);
        assert(p.drop_last().push(p.last()) =~= p);
    }
    let last = parse_bool_piece(&cur);
    match last {
        Some(v) => done.push(v),
        None => {},
    }
    done
}

/// The comma-separated writing of a list of booleans, as a client sends it.
pub open spec fn bools_text(bs: Seq<bool>) -> Seq<char>
    decreases bs.len(),
{
    if bs.len() == 0 {
        Seq::empty()
    } else if bs.len() == 1 {
        bool_word(bs[0])
    } else {
        bools_text(bs.drop_last()) + seq![','] + bool_word(bs.last())
    }
}

/// "true" or "false".
pub open spec fn bool_word(b: bool) -> Seq<char> {
    if b {
        "true"@
    } else {
        "false"@
    }
}

proof fn lemma_words(b: bool)
    ensures
        parse_bool(bool_word(b)) == Some(b),
        forall|i: int| 0 <= i < bool_word(b).len() ==> bool_word(b)[i] != ',',
        bool_word(b).len() > 0,
{
    reveal_strlit("true");
    reveal_strlit("false");
    assert("true"@.len() != "false"@.len());
}

/// Appending a run without commas extends the last piece.
proof fn lemma_pieces_extend(a: Seq<char>, w: Seq<char>)
    requires
        forall|i: int| 0 <= i < w.len() ==> w[i] != ',',
    ensures
        comma_pieces(a + w) == comma_pieces(a).update(
            comma_pieces(a).len() - 1,
            comma_pieces(a).last() + w,
        ),
    decreases w.len(),
{
    lemma_comma_pieces_nonempty(a);
    if w.len() == 0 {
        assert(a + w =~= a);
        let p = comma_pieces(a);
        assert(p.last() + w =~= p.last());
        assert(p.update(p.len() - 1, p.last()) =~= p);
    } else {
        let w0 = w.drop_last();
        lemma_pieces_extend(a, w0);
        assert((a + w).drop_last() =~= a + w0);
        assert((a + w).last() == w.last());
        let p = comma_pieces(a);
        let q = comma_pieces(a + w0);
        assert(q.last() =~= p.last() + w0);
        assert(q.last().push(w.last()) =~= p.last() + w);
        assert(q.update(q.len() - 1, q.last().push(w.last())) =~= p.update(
            p.len() - 1,
            p.last() + w,
        ));
    }
}

/// Appending a comma and then a run without commas adds that run as a new piece.
proof fn lemma_pieces_comma_word(a: Seq<char>, w: Seq<char>)
    requires
        forall|i: int| 0 <= i < w.len() ==> w[i] != ',',
    ensures
        comma_pieces(a + seq![','] + w) == comma_pieces(a).push(w),
{
    let b = a + seq![','];
    assert(b.drop_last() =~= a);
    lemma_comma_pieces_nonempty(a);
    assert(comma_pieces(b) == comma_pieces(a).push(Seq::<char>::empty()));
    lemma_pieces_extend(b, w);
    let p = comma_pieces(a).push(Seq::<char>::empty());
    assert(Seq::<char>::empty() + w =~= w);
    assert(p.update(p.len() - 1, p.last() + w) =~= comma_pieces(a).push(w));
}

proof fn lemma_bools_text_pieces(bs: Seq<bool>)
    requires
        bs.len() > 0,
    ensures
        parsed_bools(comma_pieces(bools_text(bs))) == bs,
    decreases bs.len(),
{
    lemma_words(bs.last());
    if bs.len() == 1 {
        let w = bool_word(bs[0]);
        lemma_pieces_extend(Seq::<char>::empty(), w);
        assert(Seq::<char>::empty() + w =~= w);
        assert(comma_pieces(Seq::<char>::empty()) == seq![Seq::<char>::empty()]);
        assert(comma_pieces(w) =~= seq![w]);
        assert(seq![w].drop_last() =~= Seq::<Seq<char>>::empty());
        assert(seq![w].last() == w);
        assert(parsed_bools(Seq::<Seq<char>>::empty()) == Seq::<bool>::empty());
        assert(parsed_bools(seq![w]) =~= seq![bs[0]]);
        assert(bs =~= seq![bs[0]]);
    } else {
        let rest = bs.drop_last();
        lemma_bools_text_pieces(rest);
        lemma_pieces_comma_word(bools_text(rest), bool_word(bs.last()));
        let p = comma_pieces(bools_text(rest));
        assert(p.push(bool_word(bs.last())).drop_last() =~= p);
        assert(rest.push(bs.last()) =~= bs);
    }
}

/// Law: a list of booleans written with commas reads back as the same list.
pub proof fn law_completed_filter_reads_written_list(bs: Seq<bool>)
    ensures
        completed_filter(bools_text(bs)) == bs,
{
    if bs.len() == 0 {
        assert(bools_text(bs) == Seq::<char>::empty());
        assert(comma_pieces(Seq::<char>::empty()) == seq![Seq::<char>::empty()]);
        reveal_strlit("true");
        reveal_strlit("false");
        assert(Seq::<char>::empty().len() != "true"@.len());
        assert(Seq::<char>::empty().len() != "false"@.len());
        assert(parse_bool(Seq::<char>::empty()) is None);
        let p = seq![Seq::<char>::empty()];
        assert(p.drop_last() =~= Seq::<Seq<char>>::empty());
        assert(p.last() == Seq::<char>::empty());
        assert(parsed_bools(Seq::<Seq<char>>::empty()) == Seq::<bool>::empty());
        assert(parsed_bools(p) == Seq::<bool>::empty());
        assert(bs =~= Seq::<bool>::empty());
    } else {
        lemma_bools_text_pieces(bs);
    }
}

/// Law: the page is at least 1 and the size lies in 1..=100, whatever was asked, and
/// normalizing what normalizing gave changes nothing.
pub proof fn law_normalize_bounds(page: Option<i64>, limit: Option<i64>)
    ensures
        normalized_page(page) >= 1,
        1 <= normalized_limit(limit) <= 100,
        normalized_page(Some(normalized_page(page))) == normalized_page(page),
        normalized_limit(Some(normalized_limit(limit))) == normalized_limit(limit),
{
}

/// Law: the sort column is one of four known columns and the direction is ASC or DESC,
/// whatever the client sent.
pub proof fn law_sort_is_whitelisted(field: Option<String>, order: Option<String>)
    ensures
        sort_column(field) == "title"@ || sort_column(field) == "description"@ || sort_column(
            field,
        ) == "completed"@ || sort_column(field) == "created_at"@,
        sort_direction(order) == "ASC"@ || sort_direction(order) == "DESC"@,
{
}

impl FilterPaginationQuery {
    /// The page (at least 1, default 1) and page size (1..=100, default 10).
    pub fn normalize(&self) -> (r: (i64, i64))
        ensures
            r.0 == normalized_page(self.page),
            r.1 == normalized_limit(self.limit),
    {
        let page = match self.page {
            Some(p) => p,
            None => 1,
        };
        let page = if page < 1 {
            1
        } else {
            page
        };
        let limit = match self.limit {
            Some(l) => l,
            None => 10,
        };
        let limit = if limit < 1 {
            1
        } else if limit > 100 {
            100
        } else {
            limit
        };
        (page, limit)
    }

    /// The completion filter: absent when the query has none, else the booleans of the
    /// comma-separated list, in order, other pieces dropped.
    pub fn parse_completed(&self) -> (r: Option<Vec<bool>>)
        ensures
            match self.completed {
                None => r is None,
                Some(c) => r matches Some(v) && v@ == completed_filter(c@),
            },
    {
        match &self.completed {
            None => None,
            Some(c) => Some(parse_completed_list(c.as_str())),
        }
    }

    /// The column to sort by, from a fixed list.
    pub fn sort_field(&self) -> (r: &'static str)
        ensures
            r@ == sort_column(self.sort_field),
    {
        if holds_text(&self.sort_field, "title") {
            "title"
        } else if holds_text(&self.sort_field, "description") {
            "description"
        } else if holds_text(&self.sort_field, "completed") {
            "completed"
        } else {
            "created_at"
        }
    }

    /// The sort direction, ASC or DESC.
    pub fn sort_order(&self) -> (r: &'static str)
        ensures
            r@ == sort_direction(self.sort_order),
    {
        if holds_text(&self.sort_order, "asc") {
            "ASC"
        } else if holds_text(&self.sort_order, "desc") {
            "DESC"
        } else {
            "DESC"
        }
    }
}

} // verus!
