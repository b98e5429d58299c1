//! CSV rendering: standard quoting of fields (quote a field that holds a
//! comma, a quote or a line break, doubling embedded quotes), rows joined
//! by commas and ended by a newline, and a proof that quoting loses
//! nothing of a field's text.

use vstd::prelude::*;

verus! {

/// Whether a field must be wrapped in quotes to survive in a CSV row.
pub open spec fn csv_special(c: char) -> bool {
    c == ',' || c == '"' || c == '\n' || c == '\r'
}

/// Whether `f` holds any character that forces quoting.
pub open spec fn needs_quoting(f: Seq<char>) -> bool {
    exists|i: int| 0 <= i < f.len() && csv_special(f[i])
}

/// `f` with every embedded quote doubled.
pub open spec fn doubled_quotes(f: Seq<char>) -> Seq<char>
    decreases f.len(),
{
    if f.len() == 0 {
        Seq::empty()
    } else if f[0] == '"' {
        seq!['"', '"'] + doubled_quotes(f.drop_first())
    } else {
        seq![f[0]] + doubled_quotes(f.drop_first())
    }
}

/// `f` as it stands in a CSV row: unchanged when harmless, quoted with
/// doubled quotes otherwise.
pub open spec fn csv_field(f: Seq<char>) -> Seq<char> {
    if needs_quoting(f) {
        seq!['"'] + doubled_quotes(f) + seq!['"']
    } else {
        f
    }
}

/// The encoded fields joined by commas.
pub open spec fn csv_fields_joined(fields: Seq<Seq<char>>) -> Seq<char>
    decreases fields.len(),
{
    if fields.len() == 0 {
        Seq::empty()
    } else if fields.len() == 1 {
        csv_field(fields[0])
    } else {
        csv_fields_joined(fields.drop_last()) + seq![','] + csv_field(fields.last())
    }
}

/// One CSV row: the encoded fields joined by commas, ended by a newline.
pub open spec fn csv_row(fields: Seq<Seq<char>>) -> Seq<char> {
    csv_fields_joined(fields) + seq!['\n']
}

/// The inverse of `doubled_quotes`: halves runs of doubled quotes.
pub open spec fn undoubled_quotes(f: Seq<char>) -> Seq<char>
    decreases f.len(),
{
    if f.len() == 0 {
        Seq::empty()
    } else if f[0] == '"' {
        if f.len() == 1 {
            seq!['"']
        } else {
            seq!['"'] + undoubled_quotes(f.skip(2))
        }
    } else {
        seq![f[0]] + undoubled_quotes(f.drop_first())
    }
}

/// The field text a CSV reader recovers from an encoded field.
pub open spec fn csv_field_decoded(e: Seq<char>) -> Seq<char> {
    if e.len() >= 2 && e[0] == '"' && e.last() == '"' {
        undoubled_quotes(e.subrange(1, e.len() - 1))
    } else {
        e
    }
}

/// Quoting loses nothing: decoding an encoded field gives the field back,
/// so every value that goes into a CSV row can be read back unchanged.
pub proof fn lemma_csv_field_lossless(f: Seq<char>)
    ensures
        csv_field_decoded(csv_field(f)) == f,
{
    if needs_quoting(f) {
        let e = seq!['"'] + doubled_quotes(f) + seq!['"'];
        assert(e.len() >= 2 && e[0] == '"' && e.last() == '"');
        assert(e.subrange(1, e.len() - 1) =~= doubled_quotes(f));
        lemma_undouble_double(f);
    }
}

proof fn lemma_undouble_double(f: Seq<char>)
    ensures
        undoubled_quotes(doubled_quotes(f)) == f,
    decreases f.len(),
{
    if f.len() == 0 {
        assert(undoubled_quotes(doubled_quotes(f)) =~= f);
    } else {
        lemma_undouble_double(f.drop_first());
        let d = doubled_quotes(f);
        if f[0] == '"' {
            assert(d =~= seq!['"', '"'] + doubled_quotes(f.drop_first()));
            assert(d.skip(2) =~= doubled_quotes(f.drop_first()));
            assert(undoubled_quotes(d) =~= seq!['"'] + undoubled_quotes(d.skip(2)));
            assert(undoubled_quotes(d) =~= f);
        } else {
            assert(d.drop_first() =~= doubled_quotes(f.drop_first()));
            assert(undoubled_quotes(d) =~= f);
        }
    }
}

/// `doubled_quotes` distributes over concatenation.
proof fn lemma_doubled_app(s: Seq<char>, t: Seq<char>)
    ensures
        doubled_quotes(s + t) == doubled_quotes(s) + doubled_quotes(t),
    decreases s.len(),
{
    if s.len() == 0 {
        assert(s + t =~= t);
        assert(doubled_quotes(s) + doubled_quotes(t) =~= doubled_quotes(t));
    } else {
        lemma_doubled_app(s.drop_first(), t);
        assert((s + t).drop_first() =~= s.drop_first() + t);
        if s[0] == '"' {
            assert(doubled_quotes(s + t) =~= seq!['"', '"'] + (doubled_quotes(s.drop_first())
                + doubled_quotes(t)));
            assert(doubled_quotes(s) + doubled_quotes(t) =~= seq!['"', '"'] + (doubled_quotes(
                s.drop_first(),
            ) + doubled_quotes(t)));
        } else {
            assert(doubled_quotes(s + t) =~= seq![s[0]] + (doubled_quotes(s.drop_first())
                + doubled_quotes(t)));
            assert(doubled_quotes(s) + doubled_quotes(t) =~= seq![s[0]] + (doubled_quotes(
                s.drop_first(),
            ) + doubled_quotes(t)));
        }
    }
}

/// Whether `c` forces quoting, executable form.
pub fn csv_special_char(c: char) -> (r: bool)
    ensures
        r == csv_special(c),
{
    c == ',' || c == '"' || c == '\n' || c == '\r'
}

/// Encodes one field for a CSV row.
pub fn encode_field(f: &Vec<char>) -> (r: Vec<char>)
    ensures
        r@ == csv_field(f@),
{
    let mut special: bool = false;
    let mut i: usize = 0;
    while i < f.len()
        invariant
            i <= f.len(),
            special == exists|q: int| 0 <= q < i && csv_special(f@[q]),
        decreases f.len() - i,
    {
        if csv_special_char(f[i]) {
            special = true;
        }
        i += 1;
    }
    if !special {
        let mut out: Vec<char> = Vec::new();
        crate::text::extend_chars(&mut out, f);
        proof {
            assert(out@ =~= csv_field(f@));
        }
        out
    } else {
        let mut out: Vec<char> = Vec::new();
        out.push('"');
        let mut k: usize = 0;
        while k < f.len()
            invariant
                k <= f.len(),
                out@ =~= seq!['"'] + doubled_quotes(f@.subrange(0, k as int)),
            decreases f.len() - k,
        {
            let ghost pre = f@.subrange(0, k as int);
            let c = f[k];
            proof {
                lemma_doubled_app(pre, seq![c]);
                assert(f@.subrange(0, (k + 1) as int) =~= pre + seq![c]);
                assert(seq![c].drop_first() =~= Seq::<char>::empty());
                assert(doubled_quotes(Seq::<char>::empty()) == Seq::<char>::empty());
                assert(seq![c].len() == 1 && seq![c][0] == c);
                if c == '"' {
                    assert(doubled_quotes(seq![c]) =~= seq!['"', '"']);
                } else {
                    assert(doubled_quotes(seq![c]) =~= seq![c]);
                }
            }
            if c == '"' {
                out.push('"');
                out.push('"');
            } else {
                out.push(c);
            }
            k += 1;
            proof {
                assert(out@ =~= seq!['"'] + doubled_quotes(f@.subrange(0, k as int)));
            }
        }
        out.push('"');
        proof {
            assert(f@.subrange(0, f@.len() as int) =~= f@);
            assert(out@ =~= csv_field(f@));
        }
        out
    }
}

/// The texts of a vector of character-vector fields.
pub open spec fn fields_model(s: Seq<Vec<char>>) -> Seq<Seq<char>> {
    Seq::new(s.len(), |i: int| s[i]@)
}

/// Encodes one row: fields joined by commas and ended by a newline.
pub fn encode_row(fields: &Vec<Vec<char>>) -> (r: Vec<char>)
    ensures
        r@ == csv_row(fields_model(fields@)),
{
    let ghost model = fields_model(fields@);
    let mut out: Vec<char> = Vec::new();
    let mut k: usize = 0;
    while k < fields.len()
        invariant
            k <= fields.len(),
            model == fields_model(fields@),
            out@ =~= csv_fields_joined(model.subrange(0, k as int)),
        decreases fields.len() - k,
    {
        if k > 0 {
            out.push(',');
        }
        let ef = encode_field(&fields[k]);
        crate::text::extend_chars(&mut out, &ef);
        k += 1;
        proof {
            let pre = model.subrange(0, k - 1 as int);
            let cur = model.subrange(0, k as int);
            assert(cur.drop_last() =~= pre);
            assert(cur.last() == model[k - 1]);
            assert(out@ =~= csv_fields_joined(cur));
        }
    }
    out.push('\n');
    proof {
        assert(model.subrange(0, model.len() as int) =~= model);
        assert(out@ =~= csv_row(model));
    }
    out
}

} // verus!
