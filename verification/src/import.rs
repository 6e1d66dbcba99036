//! Importing the account's characters from the service's character page:
//! the page's title lists them as `DFA_CHARS:` followed by
//! `REGION/realm/name` entries separated by `|`.

use vstd::prelude::*;

use crate::config::CharacterEntry;
use crate::text::{chars_of, find_char_from, has_prefix, same_text, starts_with_chars, lowercase, string_of_range, to_lowercase};

verus! {

/// The marker the character page puts in front of its character list.
pub const LIST_MARKER: &'static str = "DFA_CHARS:";

/// The pieces of `s` between occurrences of `sep`, as `str::split` yields
/// them (an empty string gives one empty piece).
pub open spec fn split_on(s: Seq<char>, sep: char) -> Seq<Seq<char>>
    decreases s.len(),
{
    if s.len() == 0 {
        seq![Seq::<char>::empty()]
    } else if s.last() == sep {
        split_on(s.drop_last(), sep).push(Seq::<char>::empty())
    } else {
        let pieces = split_on(s.drop_last(), sep);
        pieces.update(pieces.len() - 1, pieces.last().push(s.last()))
    }
}

proof fn lemma_split_on_nonempty(s: Seq<char>, sep: char)
    ensures
        split_on(s, sep).len() >= 1,
    decreases s.len(),
{
    if s.len() > 0 {
        lemma_split_on_nonempty(s.drop_last(), sep);
    }
}

/// The views of a list of character vectors.
pub open spec fn char_views(v: Seq<Vec<char>>) -> Seq<Seq<char>> {
    v.map_values(|x: Vec<char>| x@)
}

/// The pieces of `chars` from position `from` on, split at `sep`.
pub fn split_chars(chars: &Vec<char>, from: usize, sep: char) -> (pieces: Vec<Vec<char>>)
    requires
        from <= chars@.len(),
    ensures
        char_views(pieces@) == split_on(chars@.skip(from as int), sep),
{
    let ghost s = chars@.skip(from as int);
    let mut done: Vec<Vec<char>> = Vec::new();
    let mut cur: Vec<char> = Vec::new();
    let mut i: usize = from;
    assert(s.take(0) =~= Seq::<char>::empty());
    assert(char_views(done@).push(cur@) =~= seq![Seq::<char>::empty()]);
    while i < chars.len()
        invariant
            from <= i <= chars@.len(),
            s == chars@.skip(from as int),
            char_views(done@).push(cur@) == split_on(s.take(i - from), sep),
        decreases chars.len() - i,
    {
        let c = chars[i];
        let ghost before = s.take(i - from);
        assert(s.take(i + 1 - from).drop_last() =~= before);
        assert(s.take(i + 1 - from).last() == c);
        if c == sep {
            done.push(cur);
            cur = Vec::new();
            assert(char_views(done@).push(cur@) =~= split_on(before, sep).push(Seq::<char>::empty()));
        } else {
            let ghost old_cur = cur@;
            cur.push(c);
            proof {
                lemma_split_on_nonempty(before, sep);
            }
            assert(char_views(done@).push(cur@) =~= split_on(before, sep).update(split_on(before, sep).len() - 1, old_cur.push(c)));
        }
        i = i + 1;
    }
    assert(s.take(chars@.len() - from) =~= s);
    done.push(cur);
    done
}

/// `piece` reads `region/realm/name`, cut at its first two slashes.
pub open spec fn splits_as_entry(piece: Seq<char>, region: Seq<char>, realm: Seq<char>, name: Seq<char>) -> bool {
    &&& piece == region + seq!['/'] + realm + seq!['/'] + name
    &&& !region.contains('/')
    &&& !realm.contains('/')
}

/// `piece` names a character: it holds at least two slashes.
pub open spec fn is_entry_text(piece: Seq<char>) -> bool {
    exists|region: Seq<char>, realm: Seq<char>, name: Seq<char>| #[trigger] splits_as_entry(piece, region, realm, name)
}

/// The character a piece of the list names: its text up to the first
/// slash is the region, up to the second the realm, the rest the name.
/// A piece with fewer than two slashes names none.
pub fn entry_from_piece(piece: &Vec<char>) -> (res: Option<CharacterEntry>)
    ensures
        match res {
            Some(e) => splits_as_entry(piece@, e.region@, e.realm@, e.name@),
            None => !is_entry_text(piece@),
        },
{
    let ghost p = piece@;
    let len = piece.len();
    let first = find_char_from(piece, 0, '/');
    match first {
        None => {
            assert forall|r: Seq<char>, m: Seq<char>, n: Seq<char>| !#[trigger] splits_as_entry(p, r, m, n) by {
                if splits_as_entry(p, r, m, n) {
                    assert(p[r.len() as int] == '/');
                }
            }
            None
        },
        Some(i) => {
            assert(i < len);
            let second = find_char_from(piece, i + 1, '/');
            match second {
                None => {
                    assert forall|r: Seq<char>, m: Seq<char>, n: Seq<char>| !#[trigger] splits_as_entry(p, r, m, n) by {
                        if splits_as_entry(p, r, m, n) {
                            assert(p[r.len() as int] == '/');
                            if i < r.len() {
                                assert(r[i as int] == p[i as int]);
                                assert(r.contains('/'));
                            }
                            assert(p[r.len() + 1 + m.len() as int] == '/');
                        }
                    }
                    None
                },
                Some(j) => {
                    assert(j < len);
                    let region = string_of_range(piece, 0, i);
                    let realm = string_of_range(piece, i + 1, j);
                    let name = string_of_range(piece, j + 1, piece.len());
                    assert(p =~= region@ + seq!['/'] + realm@ + seq!['/'] + name@);
                    assert(!region@.contains('/')) by {
                        if region@.contains('/') {
                            let k = choose|k: int| 0 <= k < region@.len() && region@[k] == '/';
                            assert(p[k] == '/');
                        }
                    }
                    assert(!realm@.contains('/')) by {
                        if realm@.contains('/') {
                            let k = choose|k: int| 0 <= k < realm@.len() && realm@[k] == '/';
                            assert(p[i + 1 + k] == '/');
                        }
                    }
                    Some(CharacterEntry { region, realm, name })
                },
            }
        },
    }
}

/// The pieces of a character list title after its marker.
pub open spec fn list_pieces(title: Seq<char>) -> Seq<Seq<char>> {
    split_on(title.skip("DFA_CHARS:"@.len() as int), '|')
}

/// The positions among the first `n` pieces of those that name a character.
pub open spec fn entry_piece_indices(pieces: Seq<Seq<char>>, n: int) -> Seq<int>
    decreases n,
{
    if n <= 0 {
        Seq::empty()
    } else {
        entry_piece_indices(pieces, n - 1) + (if is_entry_text(pieces[n - 1]) {
            seq![n - 1]
        } else {
            Seq::<int>::empty()
        })
    }
}

/// The characters a page title lists: `None` unless the title starts with
/// the list marker; otherwise, in list order, the character of each piece
/// that names one (pieces with fewer than two slashes are skipped).
pub fn parse_character_list(title: &str) -> (res: Option<Vec<CharacterEntry>>)
    ensures
        res is Some <==> has_prefix(title@, "DFA_CHARS:"@),
        res matches Some(entries) ==> {
            let pieces = list_pieces(title@);
            let idx = entry_piece_indices(pieces, pieces.len() as int);
            &&& entries@.len() == idx.len()
            &&& forall|k: int| 0 <= k < entries@.len() ==> splits_as_entry(pieces[idx[k]], (#[trigger] entries@[k]).region@, entries@[k].realm@, entries@[k].name@)
        },
{
    let chars = chars_of(title);
    let marker = chars_of(LIST_MARKER);
    if !starts_with_chars(&chars, &marker) {
        return None;
    }
    let pieces = split_chars(&chars, marker.len(), '|');
    let ghost views = char_views(pieces@);
    assert(views == list_pieces(title@));
    let mut entries: Vec<CharacterEntry> = Vec::new();
    let mut i: usize = 0;
    while i < pieces.len()
        invariant
            views == char_views(pieces@),
            i <= pieces@.len(),
            entries@.len() == entry_piece_indices(views, i as int).len(),
            forall|k: int| 0 <= k < entries@.len() ==> splits_as_entry(views[entry_piece_indices(views, i as int)[k]], (#[trigger] entries@[k]).region@, entries@[k].realm@, entries@[k].name@),
        decreases pieces.len() - i,
    {
        let found = entry_from_piece(&pieces[i]);
        assert(views[i as int] == pieces@[i as int]@);
        if let Some(e) = found {
            entries.push(e);
        }
        i = i + 1;
    }
    Some(entries)
}

/// The text of one character in the list: `region/realm/name`.
pub open spec fn entry_text(region: Seq<char>, realm: Seq<char>, name: Seq<char>) -> Seq<char> {
    region + seq!['/'] + realm + seq!['/'] + name
}

/// The pieces joined with `sep` between each two.
pub open spec fn join_on(pieces: Seq<Seq<char>>, sep: char) -> Seq<char>
    decreases pieces.len(),
{
    if pieces.len() == 0 {
        Seq::empty()
    } else if pieces.len() == 1 {
        pieces[0]
    } else {
        join_on(pieces.drop_last(), sep) + seq![sep] + pieces.last()
    }
}

/// The texts of a list of (region, realm, name) triples.
pub open spec fn entry_texts(entries: Seq<(Seq<char>, Seq<char>, Seq<char>)>) -> Seq<Seq<char>> {
    entries.map_values(|e: (Seq<char>, Seq<char>, Seq<char>)| entry_text(e.0, e.1, e.2))
}

/// The title the character page sets for a list of characters.
pub open spec fn list_title(entries: Seq<(Seq<char>, Seq<char>, Seq<char>)>) -> Seq<char> {
    "DFA_CHARS:"@ + join_on(entry_texts(entries), '|')
}

proof fn lemma_split_append_plain(x: Seq<char>, b: Seq<char>, sep: char)
    requires
        !b.contains(sep),
    ensures
        split_on(x + b, sep) == split_on(x, sep).update(split_on(x, sep).len() - 1, split_on(x, sep).last() + b),
    decreases b.len(),
{
    lemma_split_on_nonempty(x, sep);
    let p = split_on(x, sep);
    if b.len() == 0 {
        assert(x + b =~= x);
        assert(p.last() + b =~= p.last());
        assert(p.update(p.len() - 1, p.last() + b) =~= p);
    } else {
        let b1 = b.drop_last();
        let c = b.last();
        assert(!b1.contains(sep)) by {
            if b1.contains(sep) {
                let k = choose|k: int| 0 <= k < b1.len() && b1[k] == sep;
                assert(b[k] == sep);
            }
        }
        assert(c != sep) by {
            assert(b[b.len() - 1] == c);
        }
        lemma_split_append_plain(x, b1, sep);
        assert((x + b).drop_last() =~= x + b1);
        assert((x + b).last() == c);
        lemma_split_on_nonempty(x + b1, sep);
        let q = split_on(x + b1, sep);
        assert(q.last() == p.last() + b1);
        assert(q.last().push(c) =~= p.last() + b);
        assert(q.update(q.len() - 1, q.last().push(c)) =~= p.update(p.len() - 1, p.last() + b));
    }
}

proof fn lemma_split_append_sep(x: Seq<char>, sep: char)
    ensures
        split_on(x + seq![sep], sep) == split_on(x, sep).push(Seq::<char>::empty()),
{
    assert((x + seq![sep]).drop_last() =~= x);
    assert((x + seq![sep]).last() == sep);
}

proof fn lemma_split_join(pieces: Seq<Seq<char>>, sep: char)
    requires
        pieces.len() >= 1,
        forall|k: int| 0 <= k < pieces.len() ==> !(#[trigger] pieces[k]).contains(sep),
    ensures
        split_on(join_on(pieces, sep), sep) == pieces,
    decreases pieces.len(),
{
    if pieces.len() == 1 {
        let e = Seq::<char>::empty();
        lemma_split_append_plain(e, pieces[0], sep);
        assert(e + pieces[0] =~= pieces[0]);
        assert(split_on(e, sep) =~= seq![e]);
        assert(e + pieces[0] =~= pieces[0]);
        assert(seq![e].update(0, e + pieces[0]) =~= pieces);
    } else {
        let front = pieces.drop_last();
        assert forall|k: int| 0 <= k < front.len() implies !(#[trigger] front[k]).contains(sep) by {
            assert(front[k] == pieces[k]);
        }
        lemma_split_join(front, sep);
        let x = join_on(front, sep) + seq![sep];
        lemma_split_append_sep(join_on(front, sep), sep);
        assert(!pieces.last().contains(sep)) by {
            assert(pieces[pieces.len() - 1] == pieces.last());
        }
        lemma_split_append_plain(x, pieces.last(), sep);
        let e = Seq::<char>::empty();
        assert(e + pieces.last() =~= pieces.last());
        assert(front.push(e).update(front.len() as int, e + pieces.last()) =~= pieces);
    }
}

proof fn lemma_entry_text_unique(r: Seq<char>, m: Seq<char>, n: Seq<char>, r2: Seq<char>, m2: Seq<char>, n2: Seq<char>)
    requires
        !r.contains('/'),
        !m.contains('/'),
        splits_as_entry(entry_text(r, m, n), r2, m2, n2),
    ensures
        r2 == r,
        m2 == m,
        n2 == n,
{
    let p = entry_text(r, m, n);
    assert(p == r2 + seq!['/'] + m2 + seq!['/'] + n2);
    if r2.len() < r.len() {
        assert(p[r2.len() as int] == '/');
        assert(p[r2.len() as int] == r[r2.len() as int]);
    }
    if r.len() < r2.len() {
        assert(p[r.len() as int] == '/');
        assert(p[r.len() as int] == r2[r.len() as int]);
    }
    assert(r2 =~= r) by {
        assert forall|k: int| 0 <= k < r.len() implies r2[k] == r[k] by {
            assert(p[k] == r[k]);
            assert(p[k] == r2[k]);
        }
    }
    let base: int = r.len() + 1int;
    if m2.len() < m.len() {
        assert(p[base + m2.len()] == '/');
        assert(p[base + m2.len()] == m[m2.len() as int]);
    }
    if m.len() < m2.len() {
        assert(p[base + m.len()] == '/');
        assert(p[base + m.len()] == m2[m.len() as int]);
    }
    assert(m2 =~= m) by {
        assert forall|k: int| 0 <= k < m.len() implies m2[k] == m[k] by {
            assert(p[base + k] == m[k]);
            assert(p[base + k] == m2[k]);
        }
    }
    let base2: int = base + m.len() + 1;
    assert(n2 =~= n) by {
        assert forall|k: int| 0 <= k < n.len() implies n2[k] == n[k] by {
            assert(p[base2 + k] == n[k]);
            assert(p[base2 + k] == n2[k]);
        }
    }
}

proof fn lemma_all_entries_kept(pieces: Seq<Seq<char>>, n: int)
    requires
        0 <= n <= pieces.len(),
        forall|k: int| 0 <= k < pieces.len() ==> is_entry_text(#[trigger] pieces[k]),
    ensures
        entry_piece_indices(pieces, n) == Seq::new(n as nat, |k: int| k),
    decreases n,
{
    if n > 0 {
        lemma_all_entries_kept(pieces, n - 1);
        assert(is_entry_text(pieces[n - 1]));
        assert(entry_piece_indices(pieces, n) =~= Seq::new(n as nat, |k: int| k));
    }
}

/// Law: a title listing characters whose fields hold no `|` (and whose
/// region and realm hold no `/`) is read back as exactly those characters,
/// in order: every piece names a character, and the only way to read
/// piece `k` as region/realm/name gives back the `k`-th character.
pub proof fn law_character_list_round_trip(entries: Seq<(Seq<char>, Seq<char>, Seq<char>)>)
    requires
        entries.len() >= 1,
        forall|k: int| 0 <= k < entries.len() ==> {
            &&& !(#[trigger] entries[k]).0.contains('/')
            &&& !entries[k].1.contains('/')
            &&& !entries[k].0.contains('|')
            &&& !entries[k].1.contains('|')
            &&& !entries[k].2.contains('|')
        },
    ensures
        has_prefix(list_title(entries), "DFA_CHARS:"@),
        list_pieces(list_title(entries)) == entry_texts(entries),
        entry_piece_indices(entry_texts(entries), entries.len() as int) == Seq::new(entries.len(), |k: int| k),
        forall|k: int, r: Seq<char>, m: Seq<char>, n: Seq<char>|
            0 <= k < entries.len() && #[trigger] splits_as_entry(entry_texts(entries)[k], r, m, n)
            ==> r == entries[k].0 && m == entries[k].1 && n == entries[k].2,
{
    let texts = entry_texts(entries);
    let title = list_title(entries);
    assert(title.take("DFA_CHARS:"@.len() as int) =~= "DFA_CHARS:"@);
    assert(title.skip("DFA_CHARS:"@.len() as int) =~= join_on(texts, '|'));
    assert forall|k: int| 0 <= k < texts.len() implies !(#[trigger] texts[k]).contains('|') by {
        let e = entries[k];
        assert(texts[k] == entry_text(e.0, e.1, e.2));
        if texts[k].contains('|') {
            let i = choose|i: int| 0 <= i < texts[k].len() && texts[k][i] == '|';
            let t = texts[k];
            if i < e.0.len() {
                assert(e.0[i] == '|');
            } else if i == e.0.len() {
                assert(t[i] == '/');
            } else if i < e.0.len() + 1 + e.1.len() {
                assert(e.1[i - e.0.len() - 1] == '|');
            } else if i == e.0.len() + 1 + e.1.len() {
                assert(t[i] == '/');
            } else {
                assert(e.2[i - e.0.len() - 2 - e.1.len()] == '|');
            }
        }
    }
    lemma_split_join(texts, '|');
    assert forall|k: int| 0 <= k < texts.len() implies is_entry_text(#[trigger] texts[k]) by {
        let e = entries[k];
        assert(splits_as_entry(texts[k], e.0, e.1, e.2));
    }
    lemma_all_entries_kept(texts, texts.len() as int);
    assert forall|k: int, r: Seq<char>, m: Seq<char>, n: Seq<char>|
        0 <= k < entries.len() && #[trigger] splits_as_entry(entry_texts(entries)[k], r, m, n)
        implies r == entries[k].0 && m == entries[k].1 && n == entries[k].2 by {
        let e = entries[k];
        lemma_entry_text_unique(e.0, e.1, e.2, r, m, n);
    }
}

/// Address of the service's sign-in page, which leads to the account's
/// character page for `region` (in lowercase).
pub fn login_url(region: &str) -> (url: String)
    ensures
        url@ == "https://www.dataforazeroth.com/redirect?to=blizzard&from=%2Fmycharacters&region="@ + lowercase(region@),
{
    let mut url = "https://www.dataforazeroth.com/redirect?to=blizzard&from=%2Fmycharacters&region=".to_owned();
    let lower = to_lowercase(region);
    url.append(lower.as_str());
    url
}

/// The key that identifies a character regardless of letter case:
/// region, realm and name in lowercase, joined by slashes.
pub open spec fn character_key(region: Seq<char>, realm: Seq<char>, name: Seq<char>) -> Seq<char> {
    lowercase(region) + "/"@ + lowercase(realm) + "/"@ + lowercase(name)
}

/// The key of a character entry.
pub open spec fn entry_key(e: CharacterEntry) -> Seq<char> {
    character_key(e.region@, e.realm@, e.name@)
}

/// The key of a character, computed.
pub fn key_of(region: &str, realm: &str, name: &str) -> (key: String)
    ensures
        key@ == character_key(region@, realm@, name@),
{
    let mut key = to_lowercase(region);
    key.append("/");
    let r = to_lowercase(realm);
    key.append(r.as_str());
    key.append("/");
    let n = to_lowercase(name);
    key.append(n.as_str());
    key
}

/// The positions among the first `n` entries of those whose key differs from `main`.
pub open spec fn other_indices(entries: Seq<CharacterEntry>, main: Seq<char>, n: int) -> Seq<int>
    decreases n,
{
    if n <= 0 {
        Seq::empty()
    } else {
        other_indices(entries, main, n - 1) + (if entry_key(entries[n - 1]) != main {
            seq![n - 1]
        } else {
            Seq::<int>::empty()
        })
    }
}

/// The imported characters other than the tracked one (compared by key,
/// so regardless of letter case), in import order.
pub fn other_characters(entries: &Vec<CharacterEntry>, region: &str, realm: &str, character: &str) -> (others: Vec<CharacterEntry>)
    ensures
        ({
            let idx = other_indices(entries@, character_key(region@, realm@, character@), entries@.len() as int);
            &&& others@.len() == idx.len()
            &&& forall|k: int| 0 <= k < others@.len() ==> {
                &&& (#[trigger] others@[k]).region@ == entries@[idx[k]].region@
                &&& others@[k].realm@ == entries@[idx[k]].realm@
                &&& others@[k].name@ == entries@[idx[k]].name@
            }
        }),
        forall|i: int| 0 <= i < entries@.len() && entry_key(#[trigger] entries@[i]) != character_key(region@, realm@, character@)
            ==> exists|k: int| 0 <= k < others@.len() && {
                &&& (#[trigger] others@[k]).region@ == entries@[i].region@
                &&& others@[k].realm@ == entries@[i].realm@
                &&& others@[k].name@ == entries@[i].name@
            },
{
    let main = key_of(region, realm, character);
    let ghost m = main@;
    let mut others: Vec<CharacterEntry> = Vec::new();
    let mut i: usize = 0;
    while i < entries.len()
        invariant
            m == character_key(region@, realm@, character@),
            main@ == m,
            i <= entries@.len(),
            others@.len() == other_indices(entries@, m, i as int).len(),
            forall|k: int| 0 <= k < others@.len() ==> {
                let idx = other_indices(entries@, m, i as int);
                &&& (#[trigger] others@[k]).region@ == entries@[idx[k]].region@
                &&& others@[k].realm@ == entries@[idx[k]].realm@
                &&& others@[k].name@ == entries@[idx[k]].name@
            },
        decreases entries.len() - i,
    {
        let e = &entries[i];
        let key = key_of(e.region.as_str(), e.realm.as_str(), e.name.as_str());
        if !same_text(key.as_str(), main.as_str()) {
            others.push(e.duplicate());
        }
        i = i + 1;
    }
    proof {
        law_others_are_all_different_keys(entries@, m, entries@.len() as int);
        let idx = other_indices(entries@, m, entries@.len() as int);
        assert forall|j: int| 0 <= j < entries@.len() && entry_key(#[trigger] entries@[j]) != m
            implies exists|k: int| 0 <= k < others@.len() && {
                &&& (#[trigger] others@[k]).region@ == entries@[j].region@
                &&& others@[k].realm@ == entries@[j].realm@
                &&& others@[k].name@ == entries@[j].name@
            } by {
            assert(idx.contains(j));
            let k = choose|k: int| 0 <= k < idx.len() && idx[k] == j;
            assert(others@[k].region@ == entries@[idx[k]].region@);
        }
    }
    others
}

/// Law: the other characters of an import are exactly the entries whose
/// key differs from the tracked character's, each once and in import
/// order: an entry is left out if and only if its region, realm and name
/// match the tracked character's regardless of letter case.
pub proof fn law_others_are_all_different_keys(entries: Seq<CharacterEntry>, main: Seq<char>, n: int)
    requires
        0 <= n <= entries.len(),
    ensures
        forall|i: int| 0 <= i < n ==> (other_indices(entries, main, n).contains(i) <==> entry_key(entries[i]) != main),
        forall|a: int, b: int| 0 <= a < b < other_indices(entries, main, n).len()
            ==> other_indices(entries, main, n)[a] < other_indices(entries, main, n)[b],
    decreases n,
{
    if n > 0 {
        law_others_are_all_different_keys(entries, main, n - 1);
        law_others_exclude_tracked(entries, main, n - 1);
        let prev = other_indices(entries, main, n - 1);
        let cur = other_indices(entries, main, n);
        assert forall|i: int| 0 <= i < n implies (cur.contains(i) <==> entry_key(entries[i]) != main) by {
            if i < n - 1 {
                if prev.contains(i) {
                    let k = choose|k: int| 0 <= k < prev.len() && prev[k] == i;
                    assert(cur[k] == prev[k]);
                }
                if cur.contains(i) {
                    let k = choose|k: int| 0 <= k < cur.len() && cur[k] == i;
                    if k < prev.len() {
                        assert(cur[k] == prev[k]);
                    }
                }
            } else {
                if entry_key(entries[i]) != main {
                    assert(cur[prev.len() as int] == i);
                }
                if cur.contains(i) {
                    let k = choose|k: int| 0 <= k < cur.len() && cur[k] == i;
                    if k < prev.len() {
                        assert(cur[k] == prev[k]);
                    }
                }
            }
        }
        assert forall|a: int, b: int| 0 <= a < b < cur.len() implies cur[a] < cur[b] by {
            if b < prev.len() {
                assert(cur[a] == prev[a] && cur[b] == prev[b]);
            } else {
                assert(cur[a] == prev[a]);
            }
        }
    }
}

/// Law: the tracked character never appears among the other characters
/// of an import, whatever the letter case of its entries.
pub proof fn law_others_exclude_tracked(entries: Seq<CharacterEntry>, main: Seq<char>, n: int)
    requires
        0 <= n <= entries.len(),
    ensures
        forall|k: int| 0 <= k < other_indices(entries, main, n).len() ==> {
            let i = #[trigger] other_indices(entries, main, n)[k];
            &&& 0 <= i < n
            &&& entry_key(entries[i]) != main
        },
    decreases n,
{
    if n > 0 {
        law_others_exclude_tracked(entries, main, n - 1);
        let prev = other_indices(entries, main, n - 1);
        assert forall|k: int| 0 <= k < other_indices(entries, main, n).len() implies {
            let i = #[trigger] other_indices(entries, main, n)[k];
            &&& 0 <= i < n
            &&& entry_key(entries[i]) != main
        } by {
            if k < prev.len() {
                assert(other_indices(entries, main, n)[k] == prev[k]);
            }
        }
    }
}

} // verus!
