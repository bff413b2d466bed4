use vstd::prelude::*;
use vstd::string::StrSliceExecFns;
use vstd::string::StringExecFns;
use crate::error::LogError;
use crate::text::fold_char;
use crate::text::fold_char_exec;
use crate::text::is_space;
use crate::text::is_space_exec;

verus! {

/// A structured query filter: each present field contributes one `AND`ed
/// predicate and one positional parameter to the built statement. Absent
/// fields are omitted; any subset, including the empty one, is valid.
pub struct QueryFilter {
    pub key: Option<String>,
    pub value_like: Option<String>,
    pub from: Option<String>,
    pub to: Option<String>,
}

/// Mathematical view of a filter: each field as an optional character sequence.
pub struct FilterView {
    pub key: Option<Seq<char>>,
    pub value_like: Option<Seq<char>>,
    pub from: Option<Seq<char>>,
    pub to: Option<Seq<char>>,
}

impl View for QueryFilter {
    type V = FilterView;

    open spec fn view(&self) -> FilterView {
        FilterView {
            key: match self.key {
                Option::Some(s) => Option::Some(s@),
                Option::None => Option::None,
            },
            value_like: match self.value_like {
                Option::Some(s) => Option::Some(s@),
                Option::None => Option::None,
            },
            from: match self.from {
                Option::Some(s) => Option::Some(s@),
                Option::None => Option::None,
            },
            to: match self.to {
                Option::Some(s) => Option::Some(s@),
                Option::None => Option::None,
            },
        }
    }
}

/// A parameterized statement: fixed SQL text together with the positional
/// parameter values, which are bound at execution time and never interpolated
/// into the text.
pub struct Statement {
    pub sql: String,
    pub params: Vec<String>,
}

/// The base statement: selects every column, with an always-true predicate so
/// that each optional filter can be appended uniformly with a leading `AND`.
pub open spec fn base_select_sql() -> Seq<char> {
    "SELECT id, key, value, timestamp FROM logs WHERE 1=1"@
}

pub open spec fn key_clause() -> Seq<char> {
    " AND key = ?"@
}

pub open spec fn value_like_clause() -> Seq<char> {
    " AND value LIKE ?"@
}

pub open spec fn from_clause() -> Seq<char> {
    " AND timestamp > ?"@
}

pub open spec fn to_clause() -> Seq<char> {
    " AND timestamp < ?"@
}

/// The statement text built for a filter: the base statement followed by the
/// clauses of the present fields, in the fixed order key, value_like, from, to.
pub open spec fn spec_query_sql(f: FilterView) -> Seq<char> {
    base_select_sql() + (if f.key is Some {
        key_clause()
    } else {
        Seq::<char>::empty()
    }) + (if f.value_like is Some {
        value_like_clause()
    } else {
        Seq::<char>::empty()
    }) + (if f.from is Some {
        from_clause()
    } else {
        Seq::<char>::empty()
    }) + (if f.to is Some {
        to_clause()
    } else {
        Seq::<char>::empty()
    })
}

/// The positional parameters for a filter: the values of the present fields,
/// in the same fixed order as their clauses.
pub open spec fn spec_query_params(f: FilterView) -> Seq<Seq<char>> {
    (if f.key is Some {
        seq![f.key->0]
    } else {
        Seq::<Seq<char>>::empty()
    }) + (if f.value_like is Some {
        seq![f.value_like->0]
    } else {
        Seq::<Seq<char>>::empty()
    }) + (if f.from is Some {
        seq![f.from->0]
    } else {
        Seq::<Seq<char>>::empty()
    }) + (if f.to is Some {
        seq![f.to->0]
    } else {
        Seq::<Seq<char>>::empty()
    })
}

/// Builds the parameterized statement for a structured filter. The statement
/// text is a function of which fields are present alone; the field values
/// appear only among the positional parameters.
pub fn build_query(filter: &QueryFilter) -> (s: Statement)
    ensures
        s.sql@ == spec_query_sql(filter@),
        s.params.deep_view() == spec_query_params(filter@),
{
    let mut sql: String = "SELECT id, key, value, timestamp FROM logs WHERE 1=1".to_owned();
    let mut params: Vec<String> = Vec::new();

    if let Option::Some(key) = &filter.key {
        sql.append(" AND key = ?");
        params.push(key.clone());
    }
    if let Option::Some(value_like) = &filter.value_like {
        sql.append(" AND value LIKE ?");
        params.push(value_like.clone());
    }
    if let Option::Some(from) = &filter.from {
        sql.append(" AND timestamp > ?");
        params.push(from.clone());
    }
    if let Option::Some(to) = &filter.to {
        sql.append(" AND timestamp < ?");
        params.push(to.clone());
    }

    proof {
        assert(sql@ =~= spec_query_sql(filter@));
        assert(params.deep_view() =~= spec_query_params(filter@));
    }
    Statement { sql, params }
}

/// A query with its leading whitespace stripped away.
pub open spec fn skip_spaces(s: Seq<char>) -> Seq<char>
    decreases s.len(),
{
    if s.len() == 0 {
        s
    } else if is_space(s[0]) {
        skip_spaces(s.skip(1))
    } else {
        s
    }
}

proof fn lemma_skip_spaces_at(s: Seq<char>, i: int)
    requires
        0 <= i <= s.len(),
        forall|j: int| 0 <= j < i ==> is_space(s[j]),
        i < s.len() ==> !is_space(s[i]),
    ensures
        skip_spaces(s) == s.skip(i),
    decreases i,
{
    if i == 0 {
        assert(s.skip(0) =~= s);
    } else {
        assert(is_space(s[0]));
        assert forall|j: int| 0 <= j < i - 1 implies is_space(s.skip(1)[j]) by {
            assert(s.skip(1)[j] == s[j + 1]);
        }
        if i - 1 < s.skip(1).len() {
            assert(s.skip(1)[i - 1] == s[i]);
        }
        lemma_skip_spaces_at(s.skip(1), i - 1);
        assert(s.skip(1).skip(i - 1) =~= s.skip(i));
    }
}

/// Whether a free-text query begins, after trimming leading whitespace, with
/// the keyword `SELECT`, compared without regard to ASCII case. This prefix
/// check is the service's whole read-only guard: it is kept deliberately weak
/// for compatibility, and a `SELECT` that reaches side-effecting functions is
/// not caught here.
pub open spec fn is_select(s: Seq<char>) -> bool {
    let t = skip_spaces(s);
    t.len() >= 6 && fold_char(t[0]) == 's' && fold_char(t[1]) == 'e' && fold_char(t[2]) == 'l'
        && fold_char(t[3]) == 'e' && fold_char(t[4]) == 'c' && fold_char(t[5]) == 't'
}

/// Screens a free-text query down to read-only access: the statement is
/// admitted verbatim, with no parameters, exactly when it begins with
/// `SELECT`; anything else is rejected before it can reach the storage layer.
pub fn screen_free_text(raw: String) -> (r: Result<Statement, LogError>)
    ensures
        r is Ok <==> is_select(raw@),
        r matches Ok(s) ==> s.sql == raw && s.params@.len() == 0,
        r matches Err(e) ==> e == LogError::QueryRejected,
{
    let n = raw.as_str().unicode_len();
    let mut i: usize = 0;
    while i < n
        invariant
            i <= n,
            n == raw@.len(),
            forall|j: int| 0 <= j < i ==> is_space(raw@[j]),
        ensures
            i <= n,
            n == raw@.len(),
            forall|j: int| 0 <= j < i ==> is_space(raw@[j]),
            i < n ==> !is_space(raw@[i as int]),
        decreases n - i,
    {
        if !is_space_exec(raw.as_str().get_char(i)) {
            break;
        }
        i = i + 1;
    }
    proof {
        lemma_skip_spaces_at(raw@, i as int);
    }
    if n - i < 6 {
        return Result::Err(LogError::QueryRejected);
    }
    let c0 = fold_char_exec(raw.as_str().get_char(i));
    let c1 = fold_char_exec(raw.as_str().get_char(i + 1));
    let c2 = fold_char_exec(raw.as_str().get_char(i + 2));
    let c3 = fold_char_exec(raw.as_str().get_char(i + 3));
    let c4 = fold_char_exec(raw.as_str().get_char(i + 4));
    let c5 = fold_char_exec(raw.as_str().get_char(i + 5));
    if c0 == 's' && c1 == 'e' && c2 == 'l' && c3 == 'e' && c4 == 'c' && c5 == 't' {
        Result::Ok(Statement { sql: raw, params: Vec::new() })
    } else {
        Result::Err(LogError::QueryRejected)
    }
}

} // verus!
