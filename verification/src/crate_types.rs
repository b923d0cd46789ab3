//! The kinds of artifact a build can emit, and the parsing of `--crate-type`
//! values into them.

use vstd::prelude::*;

verus! {

/// A kind of build output.
#[derive(Clone, Copy, Debug, PartialEq, Eq, Structural)]
pub enum CrateType {
    /// An executable binary (`bin`).
    Executable,
    /// A dynamic library (`dylib`).
    Dylib,
    /// A Rust library (`rlib`, and `lib`, which names the default library kind).
    Rlib,
    /// A static library (`staticlib`).
    Staticlib,
}

/// The kind that a token names, if it names one.
pub open spec fn kind_of(token: Seq<char>) -> Option<CrateType> {
    if token == "lib"@ || token == "rlib"@ {
        Some(CrateType::Rlib)
    } else if token == "staticlib"@ {
        Some(CrateType::Staticlib)
    } else if token == "dylib"@ {
        Some(CrateType::Dylib)
    } else if token == "bin"@ {
        Some(CrateType::Executable)
    } else {
        None
    }
}

/// Looks a token up among the names of the artifact kinds.
pub fn crate_type_from_name(token: &String) -> (kind: Option<CrateType>)
    ensures
        kind == kind_of(token@),
{
    if *token == String::from_str("lib") || *token == String::from_str("rlib") {
        Some(CrateType::Rlib)
    } else if *token == String::from_str("staticlib") {
        Some(CrateType::Staticlib)
    } else if *token == String::from_str("dylib") {
        Some(CrateType::Dylib)
    } else if *token == String::from_str("bin") {
        Some(CrateType::Executable)
    } else {
        None
    }
}

/// The pieces of `s` between its commas, in order. A string without a comma
/// is one piece, the empty string included; `n` commas give `n + 1` pieces.
pub open spec fn split_commas(s: Seq<char>) -> Seq<Seq<char>>
    decreases s.len(),
{
    if s.len() == 0 {
        seq![Seq::<char>::empty()]
    } else {
        let before = split_commas(s.drop_last());
        if s.last() == ',' {
            before.push(Seq::<char>::empty())
        } else {
            before.drop_last().push(before.last().push(s.last()))
        }
    }
}

/// The pieces joined into one string, with a comma between neighbours.
pub open spec fn join_commas(pieces: Seq<Seq<char>>) -> Seq<char>
    decreases pieces.len(),
{
    if pieces.len() == 0 {
        Seq::<char>::empty()
    } else if pieces.len() == 1 {
        pieces[0]
    } else {
        join_commas(pieces.drop_last()) + seq![','] + pieces.last()
    }
}

/// Whether no piece holds a comma.
pub open spec fn comma_free(pieces: Seq<Seq<char>>) -> bool {
    forall|i: int| 0 <= i < pieces.len() ==> !(#[trigger] pieces[i]).contains(',')
}

/// Splitting undoes joining: a string splits into at least one piece, no
/// piece holds a comma, and the pieces joined by commas are the string.
pub proof fn lemma_split_then_join(s: Seq<char>)
    ensures
        split_commas(s).len() >= 1,
        comma_free(split_commas(s)),
        join_commas(split_commas(s)) == s,
    decreases s.len(),
{
    if s.len() > 0 {
        let before = split_commas(s.drop_last());
        lemma_split_then_join(s.drop_last());
        if s.last() == ',' {
            let pieces = before.push(Seq::<char>::empty());
            assert(pieces.drop_last() =~= before);
            assert(join_commas(pieces) =~= s);
        } else {
            let grown = before.last().push(s.last());
            let pieces = before.drop_last().push(grown);
            assert(!grown.contains(',')) by {
                if grown.contains(',') {
                    let k = choose|k: int| 0 <= k < grown.len() && grown[k] == ',';
                    assert(before.last()[k] == ',');
                }
            }
            assert(pieces.drop_last() =~= before.drop_last());
            if before.len() > 1 {
                assert(join_commas(pieces) =~= join_commas(before).push(s.last()));
            }
            assert(join_commas(pieces) =~= s);
        }
    }
}

/// Joining undoes splitting: comma-free pieces, at least one, are what their
/// joined string splits into. So the pieces of a string are the only
/// comma-free strings that give it when joined by commas.
pub proof fn lemma_join_then_split(pieces: Seq<Seq<char>>)
    requires
        pieces.len() >= 1,
        comma_free(pieces),
    ensures
        split_commas(join_commas(pieces)) == pieces,
    decreases pieces.len(), pieces.last().len(),
{
    let joined = join_commas(pieces);
    let last = pieces.last();
    if last.len() == 0 {
        assert(last =~= Seq::<char>::empty());
        if pieces.len() > 1 {
            lemma_join_then_split(pieces.drop_last());
            assert(joined.drop_last() =~= join_commas(pieces.drop_last()));
        }
        assert(pieces =~= pieces.drop_last().push(last));
    } else {
        let shorter = pieces.drop_last().push(last.drop_last());
        assert(shorter.drop_last() =~= pieces.drop_last());
        assert forall|i: int| 0 <= i < shorter.len() implies !(#[trigger] shorter[i]).contains(
            ',',
        ) by {
            if i == shorter.len() - 1 {
                if shorter[i].contains(',') {
                    let k = choose|k: int| 0 <= k < shorter[i].len() && shorter[i][k] == ',';
                    assert(last[k] == ',');
                }
            } else {
                assert(shorter[i] == pieces[i]);
            }
        }
        lemma_join_then_split(shorter);
        assert(joined.drop_last() =~= join_commas(shorter));
        assert(last.contains(last.last()));
        assert(last.drop_last().push(last.last()) =~= last);
        assert(shorter.drop_last().push(last) =~= pieces);
    }
}

/// Splits `s` at its commas.
pub fn split_at_commas(s: &str) -> (parts: Vec<String>)
    ensures
        parts.deep_view() == split_commas(s@),
{
    let n = s.unicode_len();
    let mut parts: Vec<String> = Vec::new();
    let mut start: usize = 0;
    let mut i: usize = 0;
    proof {
        assert(s@.take(0) =~= Seq::<char>::empty());
        assert(parts.deep_view().push(s@.subrange(0, 0)) =~= split_commas(s@.take(0)));
    }
    for c in it: s.chars()
        invariant
            n == s@.len(),
            it.seq() == s@,
            i == it.index(),
            start <= i <= n,
            split_commas(s@.take(i as int)) == parts.deep_view().push(
                s@.subrange(start as int, i as int),
            ),
    {
        let ghost done = parts.deep_view();
        let ghost piece = s@.subrange(start as int, i as int);
        proof {
            assert(s@.take(i + 1).drop_last() =~= s@.take(i as int));
        }
        if c == ',' {
            parts.push(String::from_str(s.substring_char(start, i)));
            start = i + 1;
            proof {
                assert(parts.deep_view() =~= done.push(piece));
                assert(s@.subrange(i + 1, i + 1) =~= Seq::<char>::empty());
            }
        } else {
            proof {
                assert(s@.subrange(start as int, i + 1) =~= piece.push(c));
            }
        }
        i += 1;
    }
    let ghost done = parts.deep_view();
    parts.push(String::from_str(s.substring_char(start, n)));
    proof {
        assert(s@.take(n as int) =~= s@);
        assert(parts.deep_view() =~= done.push(s@.subrange(start as int, n as int)));
    }
    parts
}

/// The tokens of all the values of a repeated, comma-separated option.
pub open spec fn all_tokens(values: Seq<Seq<char>>) -> Seq<Seq<char>>
    decreases values.len(),
{
    if values.len() == 0 {
        Seq::<Seq<char>>::empty()
    } else {
        all_tokens(values.drop_last()) + split_commas(values.last())
    }
}

/// The kinds that a sequence of tokens names: each kind once, in the order of
/// its first mention; or the first token that names no kind.
pub open spec fn kinds_of(tokens: Seq<Seq<char>>) -> Result<Seq<CrateType>, Seq<char>>
    decreases tokens.len(),
{
    if tokens.len() == 0 {
        Ok(Seq::<CrateType>::empty())
    } else {
        match kinds_of(tokens.drop_last()) {
            Err(bad) => Err(bad),
            Ok(kinds) => match kind_of(tokens.last()) {
                None => Err(tokens.last()),
                Some(kind) => Ok(
                    if kinds.contains(kind) {
                        kinds
                    } else {
                        kinds.push(kind)
                    },
                ),
            },
        }
    }
}

/// The message for a token that names no kind.
pub open spec fn unknown_kind_message(token: Seq<char>) -> Seq<char> {
    "unknown crate type: `"@ + token + "`"@
}

/// What the values of `--crate-type` resolve to: the kinds they name, or the
/// message for the first token that names none.
pub open spec fn crate_types_from_list(values: Seq<Seq<char>>) -> Result<Seq<CrateType>, Seq<char>> {
    match kinds_of(all_tokens(values)) {
        Ok(kinds) => Ok(kinds),
        Err(bad) => Err(unknown_kind_message(bad)),
    }
}

/// The result of resolving kinds, as a plain value.
pub open spec fn kinds_view(parsed: Result<Vec<CrateType>, String>) -> Result<
    Seq<CrateType>,
    Seq<char>,
> {
    match parsed {
        Ok(kinds) => Ok(kinds@),
        Err(message) => Err(message@),
    }
}

/// Once a token names no kind, the tokens after it change nothing.
pub proof fn lemma_error_persists(tokens: Seq<Seq<char>>, more: Seq<Seq<char>>)
    requires
        kinds_of(tokens) is Err,
    ensures
        kinds_of(tokens + more) == kinds_of(tokens),
    decreases more.len(),
{
    if more.len() == 0 {
        assert(tokens + more =~= tokens);
    } else {
        lemma_error_persists(tokens, more.drop_last());
        assert((tokens + more).drop_last() =~= tokens + more.drop_last());
    }
}

/// The tokens of the first `n + 1` values are those of the first `n`,
/// followed by the pieces of the value at `n`.
pub proof fn lemma_all_tokens_step(values: Seq<Seq<char>>, n: int)
    requires
        0 <= n < values.len(),
    ensures
        all_tokens(values.take(n + 1)) == all_tokens(values.take(n)) + split_commas(values[n]),
{
    assert(values.take(n + 1).drop_last() =~= values.take(n));
}

/// A token without a kind among the first `n` values decides the whole list.
pub proof fn lemma_error_in_prefix(values: Seq<Seq<char>>, n: int)
    requires
        0 <= n <= values.len(),
        kinds_of(all_tokens(values.take(n))) is Err,
    ensures
        kinds_of(all_tokens(values)) == kinds_of(all_tokens(values.take(n))),
    decreases values.len() - n,
{
    if n == values.len() {
        assert(values.take(n) =~= values);
    } else {
        lemma_all_tokens_step(values, n);
        lemma_error_persists(all_tokens(values.take(n)), split_commas(values[n]));
        lemma_error_in_prefix(values, n + 1);
    }
}

/// The kinds that a sequence of tokens names hold no kind twice.
pub proof fn lemma_kinds_distinct(tokens: Seq<Seq<char>>)
    ensures
        kinds_of(tokens) is Ok ==> kinds_of(tokens)->Ok_0.no_duplicates(),
    decreases tokens.len(),
{
    if tokens.len() > 0 {
        lemma_kinds_distinct(tokens.drop_last());
    }
}

/// Tokens resolve to kinds exactly when each of them names one. The kinds
/// are then those that the tokens name, no more; otherwise the token
/// handed back is the first that names none.
pub proof fn lemma_kinds_of_tokens(tokens: Seq<Seq<char>>)
    ensures
        match kinds_of(tokens) {
            Ok(kinds) => {
                &&& forall|i: int|
                    0 <= i < tokens.len() ==> kind_of(#[trigger] tokens[i]) is Some
                        && kinds.contains(kind_of(tokens[i])->0)
                &&& forall|k: int|
                    0 <= k < kinds.len() ==> exists|i: int|
                        0 <= i < tokens.len() && kind_of(#[trigger] tokens[i]) == Some(
                            #[trigger] kinds[k],
                        )
            },
            Err(bad) => exists|i: int|
                {
                    &&& 0 <= i < tokens.len()
                    &&& #[trigger] tokens[i] == bad
                    &&& kind_of(bad) is None
                    &&& forall|j: int| 0 <= j < i ==> kind_of(#[trigger] tokens[j]) is Some
                },
        },
    decreases tokens.len(),
{
    if tokens.len() > 0 {
        let before = tokens.drop_last();
        let n = tokens.len() - 1;
        lemma_kinds_of_tokens(before);
        match kinds_of(before) {
            Err(bad) => {
                let i = choose|i: int|
                    {
                        &&& 0 <= i < before.len()
                        &&& #[trigger] before[i] == bad
                        &&& kind_of(bad) is None
                        &&& forall|j: int| 0 <= j < i ==> kind_of(#[trigger] before[j]) is Some
                    };
                assert(tokens[i] == bad);
                assert forall|j: int| 0 <= j < i implies kind_of(#[trigger] tokens[j]) is Some by {
                    assert(before[j] == tokens[j]);
                }
            },
            Ok(kinds) => match kind_of(tokens.last()) {
                None => {
                    assert(tokens[n] == tokens.last());
                    assert forall|j: int| 0 <= j < n implies kind_of(
                        #[trigger] tokens[j],
                    ) is Some by {
                        assert(before[j] == tokens[j]);
                    }
                },
                Some(kind) => {
                    let all = kinds_of(tokens)->Ok_0;
                    assert forall|i: int| 0 <= i < tokens.len() implies kind_of(
                        #[trigger] tokens[i],
                    ) is Some && all.contains(kind_of(tokens[i])->0) by {
                        if i < n {
                            assert(before[i] == tokens[i]);
                            let k = choose|k: int|
                                0 <= k < kinds.len() && kinds[k] == kind_of(before[i])->0;
                            assert(all[k] == kinds[k]);
                        } else if kinds.contains(kind) {
                        } else {
                            assert(all[kinds.len() as int] == kind);
                        }
                    }
                    assert forall|k: int| 0 <= k < all.len() implies exists|i: int|
                        0 <= i < tokens.len() && kind_of(#[trigger] tokens[i]) == Some(
                            #[trigger] all[k],
                        ) by {
                        if k < kinds.len() {
                            assert(all[k] == kinds[k]);
                            let i = choose|i: int|
                                0 <= i < before.len() && kind_of(#[trigger] before[i]) == Some(
                                    kinds[k],
                                );
                            assert(tokens[i] == before[i]);
                        } else {
                            assert(all[k] == kind);
                            assert(tokens[n] == tokens.last());
                        }
                    }
                },
            },
        }
    }
}

/// Whether `kind` is among `kinds`.
pub fn has_kind(kinds: &Vec<CrateType>, kind: CrateType) -> (found: bool)
    ensures
        found == kinds@.contains(kind),
{
    let mut i: usize = 0;
    while i < kinds.len()
        invariant
            i <= kinds.len(),
            forall|k: int| 0 <= k < i ==> kinds@[k] != kind,
        decreases kinds.len() - i,
    {
        if kinds[i] == kind {
            return true;
        }
        i += 1;
    }
    false
}

/// Resolves the values of `--crate-type`, each a comma-separated list of kind
/// names, into the kinds they ask for: each kind once, in the order of its
/// first mention. The first token that names no kind ends the parse with a
/// message that quotes it.
pub fn parse_crate_types_from_list(list: &Vec<String>) -> (parsed: Result<Vec<CrateType>, String>)
    ensures
        kinds_view(parsed) == crate_types_from_list(list.deep_view()),
        parsed matches Ok(kinds) ==> kinds@.no_duplicates(),
{
    let ghost values = list.deep_view();
    let mut crate_types: Vec<CrateType> = Vec::new();
    let mut i: usize = 0;
    proof {
        assert(values.take(0) =~= Seq::<Seq<char>>::empty());
    }
    while i < list.len()
        invariant
            i <= list.len(),
            values == list.deep_view(),
            kinds_of(all_tokens(values.take(i as int))) == Ok::<Seq<CrateType>, Seq<char>>(
                crate_types@,
            ),
        decreases list.len() - i,
    {
        let parts = split_at_commas(list[i].as_str());
        let ghost before = all_tokens(values.take(i as int));
        let mut j: usize = 0;
        proof {
            assert(before + parts.deep_view().take(0) =~= before);
        }
        while j < parts.len()
            invariant
                j <= parts.len(),
                i < list.len(),
                values == list.deep_view(),
                before == all_tokens(values.take(i as int)),
                parts.deep_view() == split_commas(values[i as int]),
                kinds_of(before + parts.deep_view().take(j as int)) == Ok::<
                    Seq<CrateType>,
                    Seq<char>,
                >(crate_types@),
            decreases parts.len() - j,
        {
            let ghost seen = before + parts.deep_view().take(j as int);
            let ghost next = before + parts.deep_view().take(j + 1);
            proof {
                assert(next.drop_last() =~= seen);
                assert(next.last() == parts[j as int]@);
            }
            match crate_type_from_name(&parts[j]) {
                Some(kind) => {
                    if !has_kind(&crate_types, kind) {
                        crate_types.push(kind);
                    }
                },
                None => {
                    proof {
                        let rest = parts.deep_view().skip(j + 1);
                        lemma_error_persists(next, rest);
                        assert(next + rest =~= before + parts.deep_view());
                        lemma_all_tokens_step(values, i as int);
                        lemma_error_in_prefix(values, i + 1);
                    }
                    let message = String::from_str("unknown crate type: `").concat(
                        parts[j].as_str(),
                    ).concat("`");
                    return Err(message);
                },
            }
            j += 1;
        }
        proof {
            assert(parts.deep_view().take(j as int) =~= parts.deep_view());
            lemma_all_tokens_step(values, i as int);
        }
        i += 1;
    }
    proof {
        assert(values.take(i as int) =~= values);
        lemma_kinds_distinct(all_tokens(values));
    }
    Ok(crate_types)
}

} // verus!
