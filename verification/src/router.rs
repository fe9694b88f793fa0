//! The route table: registered routes keyed by `"<methodCode>:<pathPattern>"`
//! strings, held in a `dashmap::DashMap` so that lookups from concurrently
//! served connections never observe a partially inserted route. The table's
//! mathematical model is a map from key views to routes; every operation is
//! specified against that model.

use crate::matching::find_char;
use crate::matching::lemma_route_matches_refl;
use crate::matching::spec_route_matches;
use crate::methods::spec_method_name;
use crate::methods::Method;
use vstd::prelude::*;
use vstd::string::StrSliceExecFns;
use vstd::string::StringExecFns;

verus! {

/// A registered route: the method code it answers to and the caller's
/// opaque handler token. The token stands for one handler capability; the
/// host process that embeds the router maps tokens back to callables.
#[derive(Clone, Copy, PartialEq, Eq, Structural, Debug)]
pub struct TachyonRouter {
    pub method: u8,
    pub handler: u64,
}

impl TachyonRouter {
    /// A route for the given method code and handler token.
    pub fn new(method: u8, handler: u64) -> (r: TachyonRouter)
        ensures
            r == (TachyonRouter { method, handler }),
    {
        TachyonRouter { method, handler }
    }

    /// The method code this route answers to.
    pub fn method(&self) -> (r: u8)
        ensures
            r == self.method,
    {
        self.method
    }

    /// The handler token registered for this route.
    pub fn handler(&self) -> (r: u64)
        ensures
            r == self.handler,
    {
        self.handler
    }
}

#[verifier::external_type_specification]
#[verifier::external_body]
#[verifier::reject_recursive_types(K)]
#[verifier::reject_recursive_types(V)]
#[verifier::reject_recursive_types(S)]
pub struct ExDashMap<K, V, S>(dashmap::DashMap<K, V, S>);

/// The empty table model.
pub open spec fn empty_table() -> Map<Seq<char>, TachyonRouter> {
    Map::empty()
}

/// What the table holds: each stored key's characters mapped to the stored
/// route.
pub uninterp spec fn table_entries(m: dashmap::DashMap<String, TachyonRouter>) -> Map<
    Seq<char>,
    TachyonRouter,
>;

/// Relies on `dashmap::DashMap::new`: an empty map.
#[verifier::external_body]
fn table_new() -> (r: dashmap::DashMap<String, TachyonRouter>)
    ensures
        table_entries(r) == empty_table(),
{
    dashmap::DashMap::new()
}

/// Relies on `dashmap::DashMap::insert`: maps the key to the new value and
/// returns the value the key held before, if any. Keys are compared by
/// `String` equality, which is equality of their characters. The call does
/// not unwind: hashing a `String` and taking the shard lock cannot fail.
#[verifier::external_body]
fn table_insert(
    m: &mut dashmap::DashMap<String, TachyonRouter>,
    key: String,
    value: TachyonRouter,
) -> (r: Option<TachyonRouter>)
    ensures
        table_entries(*final(m)) == table_entries(*old(m)).insert(key@, value),
        r == (if table_entries(*old(m)).contains_key(key@) {
            Some(table_entries(*old(m))[key@])
        } else {
            None::<TachyonRouter>
        }),
    no_unwind
{
    m.insert(key, value)
}

/// Relies on `dashmap::DashMap::get`: the value the key maps to, if any,
/// with keys compared by `String` equality.
#[verifier::external_body]
fn table_get(m: &dashmap::DashMap<String, TachyonRouter>, key: &String) -> (r: Option<
    TachyonRouter,
>)
    ensures
        r == (if table_entries(*m).contains_key(key@) {
            Some(table_entries(*m)[key@])
        } else {
            None::<TachyonRouter>
        }),
{
    m.get(key).map(|entry| *entry.value())
}

/// Relies on `dashmap::DashMap::iter` visiting every entry exactly once
/// while no writer runs. The predicate handed to `find` is this crate's
/// verified `route_matches`, so some entry of the returned kind exists when
/// the result is `Some`, and no entry matches when it is `None`; which of
/// several matching entries comes back is left open, as the iteration order
/// is unspecified.
#[verifier::external_body]
fn table_find_match(m: &dashmap::DashMap<String, TachyonRouter>, key: &String) -> (r: Option<
    TachyonRouter,
>)
    ensures
        (match r {
            Some(v) => resolves_to(table_entries(*m), key@, v),
            None => no_route_for(table_entries(*m), key@),
        }),
{
    m.iter().find(|entry| crate::matching::route_matches(entry.key(), key)).map(
        |entry| *entry.value(),
    )
}

/// Relies on `dashmap::DashMap::iter` visiting every entry exactly once
/// while no writer runs: the stored keys, each once, in an unspecified
/// order.
#[verifier::external_body]
fn table_keys(m: &dashmap::DashMap<String, TachyonRouter>) -> (r: Vec<String>)
    ensures
        r@.len() == table_entries(*m).dom().len(),
        forall|i: int| 0 <= i < r@.len() ==> table_entries(*m).contains_key(#[trigger] r@[i]@),
        forall|i: int, j: int| 0 <= i < j < r@.len() ==> r@[i]@ != r@[j]@,
        forall|k: Seq<char>| #[trigger]
            table_entries(*m).contains_key(k) ==> exists|i: int|
                0 <= i < r@.len() && #[trigger] r@[i]@ == k,
{
    m.iter().map(|entry| entry.key().clone()).collect()
}

/// The digit character that encodes each method inside a route key.
pub open spec fn spec_method_digit(m: Method) -> char {
    match m {
        Method::Get => '0',
        Method::Post => '1',
        Method::Put => '2',
        Method::Delete => '3',
        Method::Patch => '4',
    }
}

/// The method a route key's leading digit encodes, if it is a valid digit.
pub open spec fn spec_method_of_digit(c: char) -> Option<Method> {
    if c == '0' {
        Some(Method::Get)
    } else if c == '1' {
        Some(Method::Post)
    } else if c == '2' {
        Some(Method::Put)
    } else if c == '3' {
        Some(Method::Delete)
    } else if c == '4' {
        Some(Method::Patch)
    } else {
        None
    }
}

/// The composite route key: the method's digit, one colon, then the path.
pub open spec fn spec_route_key(m: Method, path: Seq<char>) -> Seq<char> {
    seq![spec_method_digit(m), ':'] + path
}

/// A stored key is well formed: a valid method digit, then a colon, then
/// the path pattern.
pub open spec fn is_route_key(k: Seq<char>) -> bool {
    &&& k.len() >= 2
    &&& k[1] == ':'
    &&& spec_method_of_digit(k[0]) is Some
}

/// Keys built by `spec_route_key` are well formed and find their method
/// separator at position 1, whatever colons the path itself contains.
pub proof fn lemma_route_key_wf(m: Method, path: Seq<char>)
    ensures
        is_route_key(spec_route_key(m, path)),
        find_char(spec_route_key(m, path), ':') == 1,
        spec_route_key(m, path).subrange(2, spec_route_key(m, path).len() as int) == path,
{
    let k = spec_route_key(m, path);
    assert(k[0] == spec_method_digit(m));
    assert(k[0] != ':');
    assert(k.skip(1)[0] == ':');
    assert(find_char(k.skip(1), ':') == 0);
    assert(k.subrange(2, k.len() as int) =~= path);
}

/// Builds the composite route key string for a method and a path.
pub fn build_route_key(method: Method, path: &str) -> (r: String)
    ensures
        r@ == spec_route_key(method, path@),
{
    let digit: &str = match method {
        Method::Get => "0",
        Method::Post => "1",
        Method::Put => "2",
        Method::Delete => "3",
        Method::Patch => "4",
    };
    proof {
        reveal_strlit("0");
        reveal_strlit("1");
        reveal_strlit("2");
        reveal_strlit("3");
        reveal_strlit("4");
        reveal_strlit(":");
    }
    let key = String::from_str(digit).concat(":").concat(path);
    proof {
        assert(key@ =~= spec_route_key(method, path@));
    }
    key
}

/// The method whose route-key digit is `c`.
fn method_of_digit(c: char) -> (r: Method)
    requires
        spec_method_of_digit(c) is Some,
    ensures
        Some(r) == spec_method_of_digit(c),
{
    match c {
        '0' => Method::Get,
        '1' => Method::Post,
        '2' => Method::Put,
        '3' => Method::Delete,
        _ => Method::Patch,
    }
}

/// One line of the introspection listing: the path pattern, one space, the
/// method name.
pub open spec fn spec_route_listing(k: Seq<char>) -> Seq<char>
    recommends
        is_route_key(k),
{
    k.subrange(2, k.len() as int) + seq![' '] + spec_method_name(
        spec_method_of_digit(k[0]).unwrap(),
    )
}

/// Some registered pattern in `t` matches the actual key `key` and holds
/// `router`.
pub open spec fn resolves_to(
    t: Map<Seq<char>, TachyonRouter>,
    key: Seq<char>,
    router: TachyonRouter,
) -> bool {
    exists|k: Seq<char>|
        #![trigger t.contains_key(k)]
        t.contains_key(k) && t[k] == router && spec_route_matches(k, key)
}

/// No registered pattern in `t` matches the actual key `key`.
pub open spec fn no_route_for(t: Map<Seq<char>, TachyonRouter>, key: Seq<char>) -> bool {
    forall|k: Seq<char>| t.contains_key(k) ==> !spec_route_matches(k, key)
}

/// `s` is the listing line of some key registered in `t`.
pub open spec fn is_listing_of(t: Map<Seq<char>, TachyonRouter>, s: Seq<char>) -> bool {
    exists|k: Seq<char>|
        #![trigger t.contains_key(k)]
        t.contains_key(k) && s == spec_route_listing(k)
}

/// The route table. Registration inserts or replaces; resolution probes the
/// exact key first and falls back to segment matching. All stored keys are
/// well formed.
pub struct Tachyon {
    routes: dashmap::DashMap<String, TachyonRouter>,
}

impl View for Tachyon {
    type V = Map<Seq<char>, TachyonRouter>;

    closed spec fn view(&self) -> Map<Seq<char>, TachyonRouter> {
        table_entries(self.routes)
    }
}

impl Tachyon {
    /// Every stored key is well formed.
    #[verifier::type_invariant]
    pub closed spec fn wf(self) -> bool {
        forall|k: Seq<char>| #[trigger] self@.contains_key(k) ==> is_route_key(k)
    }

    /// An empty route table.
    pub fn new() -> (r: Tachyon)
        ensures
            r@ == empty_table(),
    {
        Tachyon { routes: table_new() }
    }

    /// Inserts or replaces the route for `(method, route)`. Registering an
    /// identical key again silently supersedes the earlier handler.
    pub fn register(&mut self, method: Method, route: String, handler: u64)
        ensures
            final(self)@ == old(self)@.insert(
                spec_route_key(method, route@),
                (TachyonRouter { method: method.spec_id(), handler }),
            ),
    {
        let key = build_route_key(method, route.as_str());
        let router = TachyonRouter::new(method.id(), handler);
        proof {
            use_type_invariant(&*self);
            lemma_route_key_wf(method, route@);
            assert forall|k: Seq<char>| #[trigger] table_entries(self.routes).insert(
                key@,
                router,
            ).contains_key(k) implies is_route_key(k) by {
                if k != key@ {
                    assert(self@.contains_key(k));
                }
            }
        }
        table_insert(&mut self.routes, key, router);
    }

    /// Registers a GET route.
    pub fn get(&mut self, route: String, handler: u64)
        ensures
            final(self)@ == old(self)@.insert(
                spec_route_key(Method::Get, route@),
                (TachyonRouter { method: 0, handler }),
            ),
    {
        self.register(Method::Get, route, handler);
    }

    /// Registers a POST route.
    pub fn post(&mut self, route: String, handler: u64)
        ensures
            final(self)@ == old(self)@.insert(
                spec_route_key(Method::Post, route@),
                (TachyonRouter { method: 1, handler }),
            ),
    {
        self.register(Method::Post, route, handler);
    }

    /// Registers a PUT route.
    pub fn put(&mut self, route: String, handler: u64)
        ensures
            final(self)@ == old(self)@.insert(
                spec_route_key(Method::Put, route@),
                (TachyonRouter { method: 2, handler }),
            ),
    {
        self.register(Method::Put, route, handler);
    }

    /// Registers a DELETE route.
    pub fn delete(&mut self, route: String, handler: u64)
        ensures
            final(self)@ == old(self)@.insert(
                spec_route_key(Method::Delete, route@),
                (TachyonRouter { method: 3, handler }),
            ),
    {
        self.register(Method::Delete, route, handler);
    }

    /// Registers a PATCH route.
    pub fn patch(&mut self, route: String, handler: u64)
        ensures
            final(self)@ == old(self)@.insert(
                spec_route_key(Method::Patch, route@),
                (TachyonRouter { method: 4, handler }),
            ),
    {
        self.register(Method::Patch, route, handler);
    }

    /// Two-phase lookup. The exact phase probes the composite key directly,
    /// so a literal registration for exactly this method and path always
    /// wins; only on a miss does the parameterized phase scan for a pattern
    /// that matches segment by segment, with no promise about which of
    /// several matching patterns is picked.
    pub fn resolve(&self, method: Method, path: &str) -> (r: Option<TachyonRouter>)
        ensures
            (match r {
                Some(router) => resolves_to(self@, spec_route_key(method, path@), router),
                None => no_route_for(self@, spec_route_key(method, path@)),
            }),
            self@.contains_key(spec_route_key(method, path@)) ==> r == Some(
                self@[spec_route_key(method, path@)],
            ),
    {
        let key = build_route_key(method, path);
        let exact = table_get(&self.routes, &key);
        match exact {
            Some(router) => {
                proof {
                    lemma_route_key_wf(method, path@);
                    lemma_route_matches_refl(key@);
                    assert(self@.contains_key(key@) && self@[key@] == router
                        && spec_route_matches(key@, spec_route_key(method, path@)));
                    assert(resolves_to(self@, spec_route_key(method, path@), router));
                }
                Some(router)
            },
            None => table_find_match(&self.routes, &key),
        }
    }

    /// The introspection listing: one `"<pathPattern> <METHOD>"` line for
    /// each registered route, in no promised order.
    pub fn routes(&self) -> (r: Vec<String>)
        ensures
            r@.len() == self@.dom().len(),
            forall|i: int| 0 <= i < r@.len() ==> is_listing_of(self@, #[trigger] r@[i]@),
            forall|k: Seq<char>| #[trigger]
                self@.contains_key(k) ==> exists|i: int|
                    0 <= i < r@.len() && #[trigger] r@[i]@ == spec_route_listing(k),
    {
        proof {
            use_type_invariant(self);
            reveal_strlit(" ");
            assert(" "@ =~= seq![' ']);
        }
        let keys = table_keys(&self.routes);
        proof {
            assert forall|j: int| 0 <= j < keys@.len() implies is_route_key(
                #[trigger] keys@[j]@,
            ) by {
                assert(self@.contains_key(keys@[j]@));
            }
        }
        let mut out: Vec<String> = Vec::new();
        let n = keys.len();
        let mut i: usize = 0;
        while i < n
            invariant
                i <= n,
                n == keys@.len(),
                out@.len() == i,
                forall|j: int| 0 <= j < n ==> self@.contains_key(#[trigger] keys@[j]@),
                forall|j: int| 0 <= j < n ==> is_route_key(#[trigger] keys@[j]@),
                " "@ == seq![' '],
                forall|j: int| 0 <= j < i ==> #[trigger] out@[j]@ == spec_route_listing(keys@[j]@),
            decreases n - i,
        {
            let key = &keys[i];
            let s = key.as_str();
            let len = s.unicode_len();
            let c0 = s.get_char(0);
            let method = method_of_digit(c0);
            let path_part = s.substring_char(2, len);
            let listing = String::from_str(path_part).concat(" ").concat(method.name());
            proof {
                assert(listing@ =~= spec_route_listing(key@));
            }
            out.push(listing);
            i = i + 1;
        }
        proof {
            assert forall|idx: int| 0 <= idx < out@.len() implies is_listing_of(
                self@,
                #[trigger] out@[idx]@,
            ) by {
                assert(self@.contains_key(keys@[idx]@));
                assert(out@[idx]@ == spec_route_listing(keys@[idx]@));
            }
            assert forall|k: Seq<char>| #[trigger] self@.contains_key(k) implies exists|j: int|
                0 <= j < out@.len() && #[trigger] out@[j]@ == spec_route_listing(k) by {
                let j = choose|j: int| 0 <= j < keys@.len() && #[trigger] keys@[j]@ == k;
                assert(out@[j]@ == spec_route_listing(k));
            }
        }
        out
    }
}

/// A fresh, empty routing engine.
pub fn tachyon() -> (r: Tachyon)
    ensures
        r@ == empty_table(),
{
    Tachyon::new()
}

/// The path pattern stored inside a route key: everything after the method
/// digit and its colon.
pub open spec fn key_path(k: Seq<char>) -> Seq<char>
    recommends
        is_route_key(k),
{
    k.subrange(2, k.len() as int)
}

/// A resolved route never crosses segment counts: whatever `resolve`
/// returns for `(method, path)` was registered under some pattern whose
/// path splits into exactly as many `/`-segments as `path` does.
pub proof fn lemma_resolved_pattern_segment_count(
    t: Map<Seq<char>, TachyonRouter>,
    method: Method,
    path: Seq<char>,
    router: TachyonRouter,
)
    requires
        resolves_to(t, spec_route_key(method, path), router),
        forall|k: Seq<char>| #[trigger] t.contains_key(k) ==> is_route_key(k),
    ensures
        exists|k: Seq<char>|
            #![trigger t.contains_key(k)]
            t.contains_key(k) && t[k] == router && spec_route_matches(
                k,
                spec_route_key(method, path),
            ) && crate::matching::split_on(key_path(k), '/').len() == crate::matching::split_on(
                path,
                '/',
            ).len(),
{
    let actual = spec_route_key(method, path);
    let k = choose|k: Seq<char>|
        #![trigger t.contains_key(k)]
        t.contains_key(k) && t[k] == router && spec_route_matches(k, actual);
    lemma_route_key_wf(method, path);
    crate::matching::lemma_find_char(k, ':');
    crate::matching::lemma_match_preserves_segment_count(k, actual);
    assert(is_route_key(k));
    assert(find_char(k, ':') == 1) by {
        assert(k[0] != ':') by {
            assert(spec_method_of_digit(k[0]) is Some);
        }
        assert(k.skip(1)[0] == ':');
        assert(find_char(k.skip(1), ':') == 0);
    }
    assert(k.subrange(2, k.len() as int) == key_path(k));
    assert(actual.subrange(2, actual.len() as int) == path);
}

/// Registering the same `(method, pattern)` key twice leaves exactly one
/// route under that key, with the second route in effect: the table after
/// the two insertions is the table after the second alone.
pub proof fn lemma_register_idempotent(
    t: Map<Seq<char>, TachyonRouter>,
    method: Method,
    route: Seq<char>,
    first: TachyonRouter,
    second: TachyonRouter,
)
    ensures
        ({
            let key = spec_route_key(method, route);
            &&& t.insert(key, first).insert(key, second) == t.insert(key, second)
            &&& t.insert(key, first).insert(key, second)[key] == second
            &&& t.insert(key, first).insert(key, second).dom() == t.dom().insert(key)
        }),
{
    let key = spec_route_key(method, route);
    assert(t.insert(key, first).insert(key, second) =~= t.insert(key, second));
    assert(t.insert(key, first).insert(key, second).dom() =~= t.dom().insert(key));
}

} // verus!
