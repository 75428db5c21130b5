use vstd::prelude::*;

verus! {

/// True when `sep` occurs nowhere in `s`.
pub open spec fn free_of(s: Seq<char>, sep: char) -> bool {
    forall|i: int| 0 <= i < s.len() ==> s[i] != sep
}

/// True when `s` may stand inside a quoted value of a key/value line of a
/// line-oriented document: it holds neither a quote nor a line break.
pub open spec fn text_safe(s: Seq<char>) -> bool {
    free_of(s, '\n') && free_of(s, '"')
}

/// Splitting on `sep`, from the front. The result always holds at least one
/// piece: splitting the empty text gives one empty piece.
pub open spec fn spec_split(s: Seq<char>, sep: char) -> Seq<Seq<char>>
    decreases s.len(),
{
    if s.len() == 0 {
        seq![Seq::<char>::empty()]
    } else {
        let rest = spec_split(s.skip(1), sep);
        if s[0] == sep {
            seq![Seq::<char>::empty()] + rest
        } else {
            seq![seq![s[0]] + rest[0]] + rest.skip(1)
        }
    }
}

/// The pieces joined back together with `sep` between them.
pub open spec fn spec_join(lines: Seq<Seq<char>>, sep: char) -> Seq<char>
    decreases lines.len(),
{
    if lines.len() == 0 {
        Seq::empty()
    } else if lines.len() == 1 {
        lines[0]
    } else {
        lines[0] + seq![sep] + spec_join(lines.skip(1), sep)
    }
}

/// Splitting a text free of the separator gives that text as the one piece.
pub proof fn lemma_split_free(s: Seq<char>, sep: char)
    requires
        free_of(s, sep),
    ensures
        spec_split(s, sep) == seq![s],
    decreases s.len(),
{
    if s.len() == 0 {
        assert(spec_split(s, sep) =~~= seq![s]);
    } else {
        assert(free_of(s.skip(1), sep)) by {
            assert(forall|i: int| 0 <= i < s.skip(1).len() ==> s.skip(1)[i] == s[i + 1]);
        }
        lemma_split_free(s.skip(1), sep);
        assert(s[0] != sep);
        assert(seq![s[0]] + s.skip(1) =~= s);
        assert(spec_split(s, sep) =~~= seq![s]);
    }
}

/// Splitting `l + sep + t` peels `l` off as the first piece when `l` is free
/// of the separator.
pub proof fn lemma_split_prepend(l: Seq<char>, t: Seq<char>, sep: char)
    requires
        free_of(l, sep),
    ensures
        spec_split(l + seq![sep] + t, sep) == seq![l] + spec_split(t, sep),
    decreases l.len(),
{
    let s = l + seq![sep] + t;
    if l.len() == 0 {
        assert(s[0] == sep);
        assert(s.skip(1) =~= t);
        assert(spec_split(s, sep) =~~= seq![l] + spec_split(t, sep));
    } else {
        assert(s[0] == l[0]);
        assert(s[0] != sep);
        assert(free_of(l.skip(1), sep)) by {
            assert(forall|i: int| 0 <= i < l.skip(1).len() ==> l.skip(1)[i] == l[i + 1]);
        }
        assert(s.skip(1) =~= l.skip(1) + seq![sep] + t);
        lemma_split_prepend(l.skip(1), t, sep);
        let rest = spec_split(s.skip(1), sep);
        assert(rest == seq![l.skip(1)] + spec_split(t, sep));
        assert(rest[0] == l.skip(1));
        assert(seq![s[0]] + rest[0] =~= l);
        assert(rest.skip(1) =~= spec_split(t, sep));
        assert(spec_split(s, sep) =~~= seq![l] + spec_split(t, sep));
    }
}

/// Splitting undoes joining, as long as every piece is free of the separator.
pub proof fn lemma_split_join(lines: Seq<Seq<char>>, sep: char)
    requires
        lines.len() >= 1,
        forall|i: int| 0 <= i < lines.len() ==> free_of(#[trigger] lines[i], sep),
    ensures
        spec_split(spec_join(lines, sep), sep) == lines,
    decreases lines.len(),
{
    if lines.len() == 1 {
        lemma_split_free(lines[0], sep);
        assert(seq![lines[0]] =~~= lines);
    } else {
        let rest = lines.skip(1);
        assert(forall|i: int| 0 <= i < rest.len() ==> rest[i] == lines[i + 1]);
        lemma_split_join(rest, sep);
        lemma_split_prepend(lines[0], spec_join(rest, sep), sep);
        assert(seq![lines[0]] + rest =~~= lines);
    }
}

/// Joining after adding one more piece appends a separator and that piece.
pub proof fn lemma_join_push(lines: Seq<Seq<char>>, l: Seq<char>, sep: char)
    requires
        lines.len() >= 1,
    ensures
        spec_join(lines.push(l), sep) == spec_join(lines, sep) + seq![sep] + l,
    decreases lines.len(),
{
    if lines.len() == 1 {
        assert(lines.push(l).skip(1) =~~= seq![l]);
        assert(spec_join(seq![l], sep) == l);
        assert(lines.push(l)[0] == lines[0]);
        assert(spec_join(lines.push(l), sep) == lines.push(l)[0] + seq![sep] + spec_join(
            lines.push(l).skip(1),
            sep,
        ));
        assert(spec_join(lines.push(l), sep) == lines[0] + seq![sep] + l);
        assert(spec_join(lines, sep) == lines[0]);
    } else {
        assert(lines.push(l).skip(1) =~~= lines.skip(1).push(l));
        lemma_join_push(lines.skip(1), l, sep);
        assert(lines.push(l)[0] == lines[0]);
        assert(lines[0] + seq![sep] + (spec_join(lines.skip(1), sep) + seq![sep] + l) =~= (lines[0]
            + seq![sep] + spec_join(lines.skip(1), sep)) + seq![sep] + l);
    }
}

/// Splits `s` at every occurrence of `sep`.
pub fn split_char(s: &str, sep: char) -> (r: Vec<String>)
    ensures
        r.deep_view() == spec_split(s@, sep),
    decreases s@.len(),
{
    let len = s.unicode_len();
    let mut i: usize = 0;
    while i < len && s.get_char(i) != sep
        invariant
            0 <= i <= len,
            len == s@.len(),
            forall|j: int| 0 <= j < i ==> s@[j] != sep,
        decreases len - i,
    {
        i += 1;
    }
    if i == len {
        proof {
            lemma_split_free(s@, sep);
        }
        let mut v: Vec<String> = Vec::new();
        v.push(String::from_str(s));
        proof {
            assert(v.deep_view() =~~= seq![s@]);
        }
        v
    } else {
        let head = s.substring_char(0, i);
        let tail = s.substring_char(i + 1, len);
        let rest = split_char(tail, sep);
        let mut v: Vec<String> = Vec::new();
        v.push(String::from_str(head));
        let mut k: usize = 0;
        while k < rest.len()
            invariant
                0 <= k <= rest.len(),
                v@.len() == k + 1,
                v.deep_view() == seq![head@] + rest.deep_view().take(k as int),
            decreases rest.len() - k,
        {
            let ghost dv_pre = v.deep_view();
            v.push(rest[k].clone());
            proof {
                assert(rest.deep_view().take(k + 1) =~~= rest.deep_view().take(k as int).push(
                    rest.deep_view()[k as int],
                ));
                assert forall|i: int| 0 <= i < v@.len() implies v.deep_view()[i] == (seq![head@]
                    + rest.deep_view().take(k + 1))[i] by {
                    if i < k + 1 {
                        assert(v.deep_view()[i] == dv_pre[i]);
                    } else {
                        assert(v@[i]@ == rest@[k as int]@);
                    }
                }
                assert(v.deep_view() =~~= seq![head@] + rest.deep_view().take(k + 1));
            }
            k += 1;
        }
        proof {
            assert(rest.deep_view().take(rest.len() as int) =~~= rest.deep_view());
            assert(s@ =~= head@ + seq![sep] + tail@);
            lemma_split_prepend(head@, tail@, sep);
        }
        v
    }
}

/// Joins the pieces with `sep` between them. `sep_text` is the same
/// separator as a one-character text.
pub fn join_with(lines: &Vec<String>, sep: char, sep_text: &str) -> (r: String)
    requires
        sep_text@ == seq![sep],
    ensures
        r@ == spec_join(lines.deep_view(), sep),
{
    if lines.len() == 0 {
        return String::new();
    }
    let mut acc = lines[0].clone();
    let mut k: usize = 1;
    while k < lines.len()
        invariant
            1 <= k <= lines.len(),
            lines.deep_view().len() == lines@.len(),
            acc@ == spec_join(lines.deep_view().take(k as int), sep),
            sep_text@ == seq![sep],
        decreases lines.len() - k,
    {
        acc.append(sep_text);
        acc.append(lines[k].as_str());
        proof {
            lemma_join_push(lines.deep_view().take(k as int), lines.deep_view()[k as int], sep);
            assert(lines.deep_view().take(k + 1) =~~= lines.deep_view().take(k as int).push(
                lines.deep_view()[k as int],
            ));
        }
        k += 1;
    }
    proof {
        assert(lines.deep_view().take(lines@.len() as int) =~~= lines.deep_view());
    }
    acc
}

/// The line `<key> = true` or `<key> = false`.
pub open spec fn spec_bool_line(key: Seq<char>, b: bool) -> Seq<char> {
    if b {
        key + " = true"@
    } else {
        key + " = false"@
    }
}

/// The line `<key> = "<v>"`.
pub open spec fn spec_str_line(key: Seq<char>, v: Seq<char>) -> Seq<char> {
    key + " = \""@ + v + "\""@
}

/// Reads a line of the form `<key> = true` or `<key> = false`.
pub open spec fn spec_parse_bool_line(line: Seq<char>, key: Seq<char>) -> Option<bool> {
    if line == spec_bool_line(key, true) {
        Some(true)
    } else if line == spec_bool_line(key, false) {
        Some(false)
    } else {
        None
    }
}

/// Reads a line of the form `<key> = "<v>"` where `v` holds no quote.
pub open spec fn spec_parse_str_line(line: Seq<char>, key: Seq<char>) -> Option<Seq<char>> {
    let p = key + " = \""@;
    if line.len() > p.len() && line.subrange(0, p.len() as int) == p && line.last() == '"'
        && free_of(line.subrange(p.len() as int, line.len() - 1), '"') {
        Some(line.subrange(p.len() as int, line.len() - 1))
    } else {
        None
    }
}

/// Reading back a written boolean line gives the boolean that was written.
pub proof fn lemma_parse_bool_line(key: Seq<char>, b: bool)
    ensures
        spec_parse_bool_line(spec_bool_line(key, b), key) == Some(b),
{
    reveal_strlit(" = true");
    reveal_strlit(" = false");
    assert(spec_bool_line(key, true) != spec_bool_line(key, false)) by {
        assert(spec_bool_line(key, true).len() != spec_bool_line(key, false).len());
    }
}

/// Reading back a written string line gives the text that was written, as
/// long as that text holds no quote.
pub proof fn lemma_parse_str_line(key: Seq<char>, v: Seq<char>)
    requires
        free_of(v, '"'),
    ensures
        spec_parse_str_line(spec_str_line(key, v), key) == Some(v),
{
    reveal_strlit(" = \"");
    reveal_strlit("\"");
    let p = key + " = \""@;
    let line = spec_str_line(key, v);
    assert(line =~= p + v + "\""@);
    assert(line.len() == p.len() + v.len() + 1);
    assert(line.subrange(0, p.len() as int) =~= p);
    assert(line.last() == '"');
    assert(line.subrange(p.len() as int, line.len() - 1) =~= v);
}

/// Writes the line `<key> = true` or `<key> = false`.
pub fn bool_line(key: &str, b: bool) -> (r: String)
    ensures
        r@ == spec_bool_line(key@, b),
{
    if b {
        String::from_str(key).concat(" = true")
    } else {
        String::from_str(key).concat(" = false")
    }
}

/// Writes the line `<key> = "<v>"`.
pub fn str_line(key: &str, v: &str) -> (r: String)
    ensures
        r@ == spec_str_line(key@, v@),
{
    String::from_str(key).concat(" = \"").concat(v).concat("\"")
}

/// Reads a line of the form `<key> = true` or `<key> = false`.
pub fn parse_bool_line(line: &str, key: &str) -> (r: Option<bool>)
    ensures
        r == spec_parse_bool_line(line@, key@),
{
    let line_string = String::from_str(line);
    if line_string == bool_line(key, true) {
        Some(true)
    } else if line_string == bool_line(key, false) {
        Some(false)
    } else {
        None
    }
}

/// Reads a line of the form `<key> = "<v>"` where `v` holds no quote.
pub fn parse_str_line(line: &str, key: &str) -> (r: Option<String>)
    ensures
        r.deep_view() == spec_parse_str_line(line@, key@),
{
    let p = String::from_str(key).concat(" = \"");
    let plen = p.as_str().unicode_len();
    let llen = line.unicode_len();
    if llen <= plen {
        return None;
    }
    let head = line.substring_char(0, plen);
    if String::from_str(head) != p {
        return None;
    }
    if line.get_char(llen - 1) != '"' {
        return None;
    }
    let mid = line.substring_char(plen, llen - 1);
    if contains_char(mid, '"') {
        return None;
    }
    Some(String::from_str(mid))
}

/// Appends one borrowed text to a list of texts.
pub fn push_str(v: &mut Vec<String>, s: &str)
    ensures
        final(v).deep_view() == old(v).deep_view().push(s@),
{
    let ghost pre = v.deep_view();
    v.push(String::from_str(s));
    proof {
        assert forall|i: int| 0 <= i < v.deep_view().len() implies v.deep_view()[i] == pre.push(
            s@,
        )[i] by {
            assert(v.deep_view()[i] == v@[i]@);
            if i < pre.len() {
                assert(v@[i] == v@.take(pre.len() as int)[i]);
            }
        }
        assert(v.deep_view() =~~= pre.push(s@));
    }
}

/// Appends one owned text to a list of texts.
pub fn push_string(v: &mut Vec<String>, s: String)
    ensures
        final(v).deep_view() == old(v).deep_view().push(s@),
{
    let ghost pre = v.deep_view();
    let ghost sv = s@;
    v.push(s);
    proof {
        assert forall|i: int| 0 <= i < v.deep_view().len() implies v.deep_view()[i] == pre.push(
            sv,
        )[i] by {
            assert(v.deep_view()[i] == v@[i]@);
            if i < pre.len() {
                assert(v@[i] == v@.take(pre.len() as int)[i]);
            }
        }
        assert(v.deep_view() =~~= pre.push(sv));
    }
}

/// Copies a list of texts.
pub fn clone_all(src: &Vec<String>) -> (r: Vec<String>)
    ensures
        r.deep_view() == src.deep_view(),
{
    let mut r: Vec<String> = Vec::new();
    let mut k: usize = 0;
    proof {
        assert(r.deep_view() =~~= src.deep_view().take(0));
    }
    while k < src.len()
        invariant
            0 <= k <= src@.len(),
            src.deep_view().len() == src@.len(),
            r.deep_view() == src.deep_view().take(k as int),
        decreases src@.len() - k,
    {
        push_string(&mut r, src[k].clone());
        proof {
            assert(src.deep_view()[k as int] == src@[k as int]@);
            assert(src.deep_view().take(k + 1) =~= src.deep_view().take(k as int).push(
                src.deep_view()[k as int],
            ));
        }
        k += 1;
    }
    proof {
        assert(src.deep_view().take(src@.len() as int) =~= src.deep_view());
    }
    r
}

/// Whether `c` occurs anywhere in `s`.
pub fn contains_char(s: &str, c: char) -> (r: bool)
    ensures
        r == !free_of(s@, c),
{
    let len = s.unicode_len();
    let mut i: usize = 0;
    while i < len
        invariant
            0 <= i <= len,
            len == s@.len(),
            forall|j: int| 0 <= j < i ==> s@[j] != c,
        decreases len - i,
    {
        if s.get_char(i) == c {
            return true;
        }
        i += 1;
    }
    false
}

} // verus!
