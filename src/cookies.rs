use vstd::prelude::*;

use crate::constants::AUTHENTICATION_COOKIE_NAME;
use crate::text::{join_parts, joined, string_views};

verus! {

/// Whether no name occurs twice.
pub open spec fn names_distinct(s: Seq<(Seq<char>, Seq<char>)>) -> bool {
    forall|i: int, j: int| 0 <= i < j < s.len() ==> #[trigger] s[i].0 != #[trigger] s[j].0
}

/// The name → value mapping that a sequence of pairs holds.
pub open spec fn pairs_map(s: Seq<(Seq<char>, Seq<char>)>) -> Map<Seq<char>, Seq<char>> {
    Map::new(
        |k: Seq<char>| exists|i: int| 0 <= i < s.len() && s[i].0 == k,
        |k: Seq<char>| s[choose|i: int| 0 <= i < s.len() && s[i].0 == k].1,
    )
}

/// One cookie as the `Cookie` header writes it: `name=value`.
pub open spec fn segment(pair: (Seq<char>, Seq<char>)) -> Seq<char> {
    pair.0 + "="@ + pair.1
}

/// The `name=value` segments of a sequence of pairs, in order.
pub open spec fn segments(s: Seq<(Seq<char>, Seq<char>)>) -> Seq<Seq<char>> {
    s.map_values(|p: (Seq<char>, Seq<char>)| segment(p))
}

/// The segments that a mapping of cookies gives, in no order.
pub open spec fn segment_set(m: Map<Seq<char>, Seq<char>>) -> Set<Seq<char>> {
    Set::new(|x: Seq<char>| exists|k: Seq<char>| m.contains_key(k) && x == k + "="@ + m[k])
}

/// The views of a sequence of string pairs.
pub open spec fn pair_views(s: Seq<(String, String)>) -> Seq<(Seq<char>, Seq<char>)> {
    s.map_values(|p: (String, String)| (p.0@, p.1@))
}

proof fn lemma_map_at(s: Seq<(Seq<char>, Seq<char>)>, i: int)
    requires
        names_distinct(s),
        0 <= i < s.len(),
    ensures
        pairs_map(s).contains_key(s[i].0),
        pairs_map(s)[s[i].0] == s[i].1,
{
    let c = choose|c: int| 0 <= c < s.len() && s[c].0 == s[i].0;
    if c != i {
        if c < i {
            assert(s[c].0 != s[i].0);
        } else {
            assert(s[i].0 != s[c].0);
        }
    }
}

proof fn lemma_segments_are_segment_set(s: Seq<(Seq<char>, Seq<char>)>)
    requires
        names_distinct(s),
    ensures
        segments(s).to_set() == segment_set(pairs_map(s)),
{
    let m = pairs_map(s);
    assert forall|x: Seq<char>| segments(s).to_set().contains(x) <==> segment_set(m).contains(x) by {
        if segments(s).to_set().contains(x) {
            let i = choose|i: int| 0 <= i < segments(s).len() && segments(s)[i] == x;
            lemma_map_at(s, i);
            assert(m.contains_key(s[i].0) && x == s[i].0 + "="@ + m[s[i].0]);
        }
        if segment_set(m).contains(x) {
            let k = choose|k: Seq<char>| m.contains_key(k) && x == k + "="@ + m[k];
            let i = choose|i: int| 0 <= i < s.len() && s[i].0 == k;
            lemma_map_at(s, i);
            assert(segments(s)[i] == x);
        }
    }
    assert(segments(s).to_set() =~= segment_set(m));
}

/// The `Cookie` header depends on the cookies alone, up to the order of
/// its segments: two jars with the same cookies write the same segments.
pub proof fn lemma_header_segments_determined(
    a: Seq<(Seq<char>, Seq<char>)>,
    b: Seq<(Seq<char>, Seq<char>)>,
)
    requires
        names_distinct(a),
        names_distinct(b),
        pairs_map(a) == pairs_map(b),
    ensures
        segments(a).to_set() == segments(b).to_set(),
{
    lemma_segments_are_segment_set(a);
    lemma_segments_are_segment_set(b);
}

/// `pairs_map(s)` with `name` set to `value`.
pub open spec fn s_ins(s: Seq<(Seq<char>, Seq<char>)>, name: Seq<char>, value: Seq<char>) -> Map<Seq<char>, Seq<char>> {
    pairs_map(s).insert(name, value)
}

/// The cookies of an authenticated client, each name at most once. The
/// jar alone makes the `Cookie` header; answers never change it.
pub struct CookieJar {
    entries: Vec<(String, String)>,
}

impl View for CookieJar {
    type V = Map<Seq<char>, Seq<char>>;

    open spec fn view(&self) -> Map<Seq<char>, Seq<char>> {
        pairs_map(self.pairs())
    }
}

impl CookieJar {
    #[verifier::type_invariant]
    spec fn distinct(self) -> bool {
        names_distinct(pair_views(self.entries@))
    }

    /// The cookies as (name, value), in the order the header writes them.
    pub closed spec fn pairs(&self) -> Seq<(Seq<char>, Seq<char>)> {
        pair_views(self.entries@)
    }

    fn position(&self, name: &String) -> (r: Option<usize>)
        ensures
            r matches Some(i) ==> i < self.pairs().len() && self.pairs()[i as int].0 == name@,
            r is None ==> forall|i: int| 0 <= i < self.pairs().len() ==> #[trigger] self.pairs()[i].0 != name@,
    {
        let mut i: usize = 0;
        while i < self.entries.len()
            invariant
                0 <= i <= self.entries@.len(),
                forall|k: int| 0 <= k < i ==> #[trigger] pair_views(self.entries@)[k].0 != name@,
            decreases self.entries@.len() - i,
        {
            if self.entries[i].0 == *name {
                return Some(i);
            }
            i = i + 1;
        }
        None
    }

    /// A jar that holds the session cookie `auth_cookie` alone.
    pub fn new(auth_cookie: &str) -> (r: CookieJar)
        ensures
            r@ == map![AUTHENTICATION_COOKIE_NAME@ => auth_cookie@],
            names_distinct(r.pairs()),
    {
        let mut entries: Vec<(String, String)> = Vec::new();
        entries.push((String::from_str(AUTHENTICATION_COOKIE_NAME), String::from_str(auth_cookie)));
        let r = CookieJar { entries };
        proof {
            lemma_map_at(r.pairs(), 0);
            assert(r@ =~= map![AUTHENTICATION_COOKIE_NAME@ => auth_cookie@]);
        }
        r
    }

    /// Sets the cookie `name` to `value`. A cookie already held keeps its
    /// place in the header; a new one comes last.
    pub fn insert_cookie(&mut self, name: &str, value: &str)
        ensures
            final(self)@ == old(self)@.insert(name@, value@),
            names_distinct(final(self).pairs()),
    {
        proof {
            use_type_invariant(&*self);
        }
        let key = String::from_str(name);
        let pair = (String::from_str(name), String::from_str(value));
        let ghost s = self.pairs();
        let mut entries: Vec<(String, String)> = Vec::new();
        std::mem::swap(&mut entries, &mut self.entries);
        let found = {
            let probe = CookieJar { entries };
            let found = probe.position(&key);
            entries = probe.entries;
            found
        };
        match found {
            Some(i) => {
                entries.set(i, pair);
            },
            None => {
                entries.push(pair);
            },
        }
        let ghost t = pair_views(entries@);
        proof {
            match found {
                Some(i) => {
                    assert(t =~= s.update(i as int, (name@, value@)));
                },
                None => {
                    assert(t =~= s.push((name@, value@)));
                },
            }
            assert forall|a: int, b: int| 0 <= a < b < t.len() implies #[trigger] t[a].0 != #[trigger] t[b].0 by {
                if a < s.len() && b < s.len() {
                    assert(s[a].0 != s[b].0);
                }
            }
            assert forall|k: Seq<char>| #[trigger] pairs_map(t).contains_key(k) <==> s_ins(s, name@, value@).contains_key(k) by {
                if pairs_map(t).contains_key(k) {
                    let c = choose|c: int| 0 <= c < t.len() && t[c].0 == k;
                    if c < s.len() && t[c] == s[c] {
                        lemma_map_at(s, c);
                    }
                }
                if k != name@ && pairs_map(s).contains_key(k) {
                    let c = choose|c: int| 0 <= c < s.len() && s[c].0 == k;
                    assert(t[c].0 == k);
                }
                if k == name@ {
                    match found {
                        Some(i) => { assert(t[i as int].0 == k); },
                        None => { assert(t[s.len() as int].0 == k); },
                    }
                }
            }
            assert forall|k: Seq<char>| #[trigger] pairs_map(t).contains_key(k) implies pairs_map(t)[k] == s_ins(s, name@, value@)[k] by {
                let c = choose|c: int| 0 <= c < t.len() && t[c].0 == k;
                lemma_map_at(t, c);
                if k != name@ {
                    assert(c < s.len() && t[c] == s[c]);
                    lemma_map_at(s, c);
                }
            }
            assert(pairs_map(t) =~= s_ins(s, name@, value@));
        }
        *self = CookieJar { entries };
    }

    /// Removes the cookie `name`, if held.
    pub fn remove_cookie(&mut self, name: &str)
        ensures
            final(self)@ == old(self)@.remove(name@),
            names_distinct(final(self).pairs()),
    {
        proof {
            use_type_invariant(&*self);
        }
        let key = String::from_str(name);
        let ghost s = self.pairs();
        match self.position(&key) {
            Some(i) => {
                let mut entries: Vec<(String, String)> = Vec::new();
                std::mem::swap(&mut entries, &mut self.entries);
                entries.remove(i);
                let ghost t = pair_views(entries@);
                proof {
                    assert(t =~= s.remove(i as int));
                    assert forall|a: int, b: int| 0 <= a < b < t.len() implies #[trigger] t[a].0 != #[trigger] t[b].0 by {
                        let a2 = if a < i { a } else { a + 1 };
                        let b2 = if b < i { b } else { b + 1 };
                        assert(s[a2].0 != s[b2].0);
                    }
                    assert forall|k: Seq<char>| #[trigger] pairs_map(t).contains_key(k) <==> pairs_map(s).remove(name@).contains_key(k) by {
                        if pairs_map(t).contains_key(k) {
                            let c = choose|c: int| 0 <= c < t.len() && t[c].0 == k;
                            let c2 = if c < i { c } else { c + 1 };
                            assert(s[c2].0 == k);
                            assert(s[i as int].0 != s[c2].0 || c2 == i);
                        }
                        if k != name@ && pairs_map(s).contains_key(k) {
                            let c = choose|c: int| 0 <= c < s.len() && s[c].0 == k;
                            if c < i {
                                assert(t[c].0 == k);
                            } else {
                                assert(c != i);
                                assert(t[c - 1].0 == k);
                            }
                        }
                    }
                    assert forall|k: Seq<char>| #[trigger] pairs_map(t).contains_key(k) implies pairs_map(t)[k] == pairs_map(s)[k] by {
                        let c = choose|c: int| 0 <= c < t.len() && t[c].0 == k;
                        lemma_map_at(t, c);
                        let c2 = if c < i { c } else { c + 1 };
                        lemma_map_at(s, c2);
                    }
                    assert(pairs_map(t) =~= pairs_map(s).remove(name@));
                }
                *self = CookieJar { entries };
            },
            None => {
                proof {
                    assert(!pairs_map(s).contains_key(name@));
                    assert(pairs_map(s).remove(name@) =~= pairs_map(s));
                }
            },
        }
    }

    /// The value of the cookie `name`, if held.
    pub fn get_cookie(&self, name: &str) -> (r: Option<String>)
        ensures
            r is Some <==> self@.contains_key(name@),
            r matches Some(v) ==> v@ == self@[name@],
    {
        proof {
            use_type_invariant(self);
        }
        let key = String::from_str(name);
        match self.position(&key) {
            Some(i) => {
                proof {
                    lemma_map_at(self.pairs(), i as int);
                }
                Some(self.entries[i].1.clone())
            },
            None => None,
        }
    }

    /// Removes every cookie.
    pub fn clear_cookies(&mut self)
        ensures
            final(self)@ == Map::<Seq<char>, Seq<char>>::empty(),
            names_distinct(final(self).pairs()),
    {
        *self = CookieJar { entries: Vec::new() };
        proof {
            assert(self@ =~= Map::<Seq<char>, Seq<char>>::empty());
        }
    }

    /// Sets the session cookie.
    pub fn set_auth_cookie(&mut self, cookie: &str)
        ensures
            final(self)@ == old(self)@.insert(AUTHENTICATION_COOKIE_NAME@, cookie@),
            names_distinct(final(self).pairs()),
    {
        self.insert_cookie(AUTHENTICATION_COOKIE_NAME, cookie);
    }

    /// The `Cookie` header: the `name=value` segments of the held cookies,
    /// joined by `; `; none for an empty jar.
    pub fn header_value(&self) -> (r: Option<String>)
        ensures
            r is None <==> self.pairs().len() == 0,
            r matches Some(h) ==> h@ == joined(segments(self.pairs()), "; "@),
            names_distinct(self.pairs()),
    {
        proof {
            use_type_invariant(self);
        }
        if self.entries.len() == 0 {
            return None;
        }
        let mut parts: Vec<String> = Vec::new();
        let mut i: usize = 0;
        while i < self.entries.len()
            invariant
                0 <= i <= self.entries@.len(),
                string_views(parts@) == segments(self.pairs().take(i as int)),
            decreases self.entries@.len() - i,
        {
            let mut part = self.entries[i].0.clone();
            part.append("=");
            part.append(&*self.entries[i].1);
            let ghost prev = parts@;
            parts.push(part);
            proof {
                assert(self.pairs().take(i + 1) =~= self.pairs().take(i as int).push(self.pairs()[i as int]));
                assert(string_views(parts@) =~= string_views(prev).push(part@));
                assert(segments(self.pairs().take(i + 1)) =~= segments(self.pairs().take(i as int)).push(segment(self.pairs()[i as int])));
            }
            i = i + 1;
        }
        proof {
            assert(self.pairs().take(i as int) =~= self.pairs());
        }
        Some(join_parts(&parts, "; "))
    }
}

} // verus!
