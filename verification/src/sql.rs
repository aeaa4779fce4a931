//! A model of SQL text generation with bound parameters.
//!
//! Queries render themselves into a [`SqlBuffer`]: literal SQL text is pushed
//! verbatim, while parameter values are pushed out of band and only a numbered
//! placeholder (`$1`, `$2`, ...) appears in the text. Keeping values out of
//! the text is what makes the rendering immune to injection.

use vstd::prelude::*;
use vstd::string::StringExecFns;

verus! {

/// The sequence of decimal digit characters of `n`, most significant first.
pub open spec fn dec_str(n: nat) -> Seq<char>
    decreases n,
{
    if n < 10 {
        seq![digit_char(n)]
    } else {
        dec_str(n / 10).push(digit_char(n % 10))
    }
}

/// The character for a single decimal digit.
pub open spec fn digit_char(d: nat) -> char {
    if d == 0 {
        '0'
    } else if d == 1 {
        '1'
    } else if d == 2 {
        '2'
    } else if d == 3 {
        '3'
    } else if d == 4 {
        '4'
    } else if d == 5 {
        '5'
    } else if d == 6 {
        '6'
    } else if d == 7 {
        '7'
    } else if d == 8 {
        '8'
    } else {
        '9'
    }
}

fn digit_str(d: u64) -> (r: &'static str)
    requires
        d < 10,
    ensures
        r@ == seq![digit_char(d as nat)],
{
    if d == 0 {
        proof {
            reveal_strlit("0");
            assert("0"@ =~= seq![digit_char(d as nat)]);
        }
        "0"
    } else if d == 1 {
        proof {
            reveal_strlit("1");
            assert("1"@ =~= seq![digit_char(d as nat)]);
        }
        "1"
    } else if d == 2 {
        proof {
            reveal_strlit("2");
            assert("2"@ =~= seq![digit_char(d as nat)]);
        }
        "2"
    } else if d == 3 {
        proof {
            reveal_strlit("3");
            assert("3"@ =~= seq![digit_char(d as nat)]);
        }
        "3"
    } else if d == 4 {
        proof {
            reveal_strlit("4");
            assert("4"@ =~= seq![digit_char(d as nat)]);
        }
        "4"
    } else if d == 5 {
        proof {
            reveal_strlit("5");
            assert("5"@ =~= seq![digit_char(d as nat)]);
        }
        "5"
    } else if d == 6 {
        proof {
            reveal_strlit("6");
            assert("6"@ =~= seq![digit_char(d as nat)]);
        }
        "6"
    } else if d == 7 {
        proof {
            reveal_strlit("7");
            assert("7"@ =~= seq![digit_char(d as nat)]);
        }
        "7"
    } else if d == 8 {
        proof {
            reveal_strlit("8");
            assert("8"@ =~= seq![digit_char(d as nat)]);
        }
        "8"
    } else {
        proof {
            reveal_strlit("9");
            assert("9"@ =~= seq![digit_char(d as nat)]);
        }
        "9"
    }
}

/// Appends the decimal rendering of `n` to `out`.
fn push_dec(out: &mut String, n: u64)
    ensures
        final(out)@ == old(out)@ + dec_str(n as nat),
    decreases n,
{
    if n >= 10 {
        push_dec(out, n / 10);
    }
    let d = digit_str(n % 10);
    out.append(d);
    proof {
        if n >= 10 {
            assert(old(out)@ + dec_str((n / 10) as nat) + seq![digit_char((n % 10) as nat)]
                =~= old(out)@ + dec_str(n as nat));
        } else {
            assert(old(out)@ + seq![digit_char(n as nat)] =~= old(out)@ + dec_str(n as nat));
        }
    }
}

/// The placeholder text for the `k`-th bound parameter: `$` followed by `k`
/// in decimal.
pub open spec fn placeholder(k: nat) -> Seq<char> {
    seq!['$'] + dec_str(k)
}

/// Accumulates a rendered query: the SQL text, and the bound parameter values
/// that the numbered placeholders in the text refer to.
pub struct SqlBuffer {
    pub sql: String,
    pub binds: Vec<i64>,
}

impl SqlBuffer {
    /// An empty buffer: no text, no bound parameters.
    pub fn new() -> (r: SqlBuffer)
        ensures
            r.sql@ == Seq::<char>::empty(),
            r.binds@ == Seq::<i64>::empty(),
    {
        SqlBuffer { sql: String::new(), binds: Vec::new() }
    }

    /// Appends literal SQL text. Bound parameters are untouched.
    pub fn push_sql(&mut self, s: &str)
        ensures
            final(self).sql@ == old(self).sql@ + s@,
            final(self).binds@ == old(self).binds@,
    {
        self.sql.append(s);
    }

    /// Appends a 64-bit integer bound parameter. The value itself never enters
    /// the SQL text: only the placeholder for the next parameter position does.
    pub fn push_bind_i64(&mut self, v: i64)
        ensures
            final(self).sql@ == old(self).sql@ + placeholder(old(self).binds@.len() + 1),
            final(self).binds@ == old(self).binds@.push(v),
    {
        self.binds.push(v);
        self.sql.append("$");
        let n = self.binds.len();
        push_dec(&mut self.sql, n as u64);
        proof {
            reveal_strlit("$");
            assert(old(self).sql@ + "$"@ + dec_str((n as u64) as nat)
                =~= old(self).sql@ + placeholder(old(self).binds@.len() + 1));
        }
    }
}

/// A query expression that can render itself into a [`SqlBuffer`].
///
/// `sql_text` is the exact text the query emits when `prior_binds` bound
/// parameters already sit in the buffer (placeholder numbering continues from
/// there), and `binds_model` the parameter values it appends, in order.
pub trait QueryFragment: Sized {
    spec fn sql_text(&self, prior_binds: nat) -> Seq<char>;

    spec fn binds_model(&self) -> Seq<i64>;

    fn walk_ast(&self, out: &mut SqlBuffer)
        ensures
            final(out).sql@ == old(out).sql@ + self.sql_text(old(out).binds@.len()),
            final(out).binds@ == old(out).binds@ + self.binds_model(),
    ;
}

/// A base query given as already-rendered SQL text, with no bound parameters
/// of its own.
pub struct RawSql {
    pub sql: String,
}

impl RawSql {
    pub fn new(sql: String) -> (r: RawSql)
        ensures
            r.sql@ == sql@,
    {
        RawSql { sql }
    }
}

impl QueryFragment for RawSql {
    open spec fn sql_text(&self, prior_binds: nat) -> Seq<char> {
        self.sql@
    }

    open spec fn binds_model(&self) -> Seq<i64> {
        Seq::empty()
    }

    fn walk_ast(&self, out: &mut SqlBuffer) {
        out.push_sql(self.sql.as_str());
        proof {
            assert(out.binds@ =~= old(out).binds@ + Seq::<i64>::empty());
        }
    }
}

} // verus!
