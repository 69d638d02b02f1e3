//! The routing table: from a listening port, a method and a path to a handler.

use crate::http::{
    bare_response, path_view, HttpRequest, HttpResponse, Method, STATUS_NOT_FOUND,
};
use crate::assoc::{
    as_map, distinct_keys, has_key, lemma_entry, lemma_len, lemma_push, lemma_remove, lemma_update,
};
use vstd::prelude::*;

verus! {

/// What an entry of the table is found by.
pub struct RouteKey {
    pub port: u16,
    pub method: Method,
    pub path: Seq<Seq<char>>,
}

/// The key under which a request that came in on `port` is looked up.
pub open spec fn request_key(port: u16, req: &HttpRequest) -> RouteKey {
    RouteKey { port, method: req.method, path: path_view(req.path@) }
}

/// The key made of a port, a method and the segments of a path.
pub open spec fn route_key(port: u16, method: Method, path: &Vec<String>) -> RouteKey {
    RouteKey { port, method, path: path_view(path@) }
}

struct Route<H> {
    port: u16,
    method: Method,
    path: Vec<String>,
    handler: H,
}

impl<H> Route<H> {
    spec fn key(&self) -> RouteKey {
        RouteKey { port: self.port, method: self.method, path: path_view(self.path@) }
    }
}

/// Whether two paths have the same segments.
fn same_path(a: &Vec<String>, b: &Vec<String>) -> (r: bool)
    ensures
        r == (path_view(a@) == path_view(b@)),
{
    if a.len() != b.len() {
        return false;
    }
    let mut i: usize = 0;
    while i < a.len()
        invariant
            i <= a.len(),
            a.len() == b.len(),
            forall|j: int| 0 <= j < i ==> a@[j]@ == b@[j]@,
        decreases a.len() - i,
    {
        if a[i] != b[i] {
            assert(path_view(a@)[i as int] != path_view(b@)[i as int]);
            return false;
        }
        i += 1;
    }
    assert(path_view(a@) =~= path_view(b@));
    true
}

/// The entries as pairs of a key and a handler.
spec fn pairs<H>(routes: Seq<Route<H>>) -> Seq<(RouteKey, H)> {
    Seq::new(routes.len(), |i: int| (routes[i].key(), routes[i].handler))
}

/// A table of handlers. A table that is well formed holds no two entries under one key.
pub struct Router<H> {
    routes: Vec<Route<H>>,
}

impl<H> Router<H> {
    /// No two entries share a key.
    pub closed spec fn wf(&self) -> bool {
        distinct_keys(pairs(self.routes@))
    }

    /// The table as a map from keys to handlers.
    pub closed spec fn view(&self) -> Map<RouteKey, H> {
        as_map(pairs(self.routes@))
    }

    /// The empty table.
    pub fn new() -> (r: Router<H>)
        ensures
            r.wf(),
            r@ == Map::<RouteKey, H>::empty(),
    {
        Router { routes: Vec::new() }
    }

    /// The number of entries.
    pub fn len(&self) -> (n: usize)
        requires
            self.wf(),
        ensures
            self@.dom().finite(),
            n == self@.len(),
    {
        proof {
            lemma_len(pairs(self.routes@));
        }
        self.routes.len()
    }

    fn position(&self, port: u16, method: Method, path: &Vec<String>) -> (r: Option<usize>)
        ensures
            match r {
                Some(i) => i < self.routes.len() && self.routes[i as int].key() == route_key(
                    port,
                    method,
                    path,
                ),
                None => !has_key(pairs(self.routes@), route_key(port, method, path)),
            },
    {
        let mut i: usize = 0;
        while i < self.routes.len()
            invariant
                i <= self.routes.len(),
                forall|j: int|
                    0 <= j < i ==> (#[trigger] pairs(self.routes@)[j]).0 != route_key(
                        port,
                        method,
                        path,
                    ),
            decreases self.routes.len() - i,
        {
            let route = &self.routes[i];
            if route.port == port && route.method == method && same_path(&route.path, path) {
                return Some(i);
            }
            i += 1;
        }
        None
    }

    /// Whether the table holds an entry under this key.
    pub fn contains(&self, port: u16, method: Method, path: &Vec<String>) -> (r: bool)
        ensures
            r == self@.contains_key(route_key(port, method, path)),
    {
        match self.position(port, method, path) {
            Some(i) => {
                assert(pairs(self.routes@)[i as int].0 == route_key(port, method, path));
                true
            },
            None => false,
        }
    }

    /// The handler registered under this key, if there is one.
    pub fn lookup(&self, port: u16, method: Method, path: &Vec<String>) -> (r: Option<&H>)
        requires
            self.wf(),
        ensures
            match r {
                Some(h) => self@.contains_key(route_key(port, method, path)) && *h == self@[route_key(
                    port,
                    method,
                    path,
                )],
                None => !self@.contains_key(route_key(port, method, path)),
            },
    {
        match self.position(port, method, path) {
            Some(i) => {
                proof {
                    lemma_entry(pairs(self.routes@), i as int);
                }
                Some(&self.routes[i].handler)
            },
            None => None,
        }
    }

    /// Registers a handler under a key. An entry that was there under the same key is
    /// replaced: the last insert wins.
    pub fn insert(&mut self, port: u16, method: Method, path: Vec<String>, handler: H)
        requires
            old(self).wf(),
        ensures
            final(self).wf(),
            final(self)@ == old(self)@.insert(route_key(port, method, &path), handler),
    {
        let ghost key = route_key(port, method, &path);
        let ghost before = pairs(self.routes@);
        match self.position(port, method, &path) {
            Some(i) => {
                self.routes.set(i, Route { port, method, path, handler });
                proof {
                    lemma_update(before, i as int, handler);
                    assert(pairs(self.routes@) =~= before.update(i as int, (key, handler)));
                }
            },
            None => {
                self.routes.push(Route { port, method, path, handler });
                proof {
                    lemma_push(before, key, handler);
                    assert(pairs(self.routes@) =~= before.push((key, handler)));
                }
            },
        }
    }

    /// Takes the entry under a key out of the table and hands back its handler. Where the
    /// table holds none under that key, nothing changes.
    pub fn remove(&mut self, port: u16, method: Method, path: &Vec<String>) -> (r: Option<H>)
        requires
            old(self).wf(),
        ensures
            final(self).wf(),
            final(self)@ == old(self)@.remove(route_key(port, method, path)),
            r == if old(self)@.contains_key(route_key(port, method, path)) {
                Some(old(self)@[route_key(port, method, path)])
            } else {
                None
            },
    {
        let ghost before = pairs(self.routes@);
        match self.position(port, method, path) {
            Some(i) => {
                let route = self.routes.remove(i);
                proof {
                    lemma_entry(before, i as int);
                    lemma_remove(before, i as int);
                    assert(pairs(self.routes@) =~= before.remove(i as int));
                }
                Some(route.handler)
            },
            None => None,
        }
    }

    /// Looks a request up by the port it came in on, its method and its path. On a hit the
    /// handler is called with the request and its response is handed back; on a miss the
    /// answer is `None`.
    pub fn match_(&self, port: u16, req: &HttpRequest) -> (r: Option<HttpResponse>) where
        H: Fn(&HttpRequest) -> HttpResponse,

        requires
            self.wf(),
            self@.contains_key(request_key(port, req)) ==> call_requires(
                self@[request_key(port, req)],
                (req,),
            ),
        ensures
            match r {
                Some(rep) => self@.contains_key(request_key(port, req)) && call_ensures(
                    self@[request_key(port, req)],
                    (req,),
                    rep,
                ),
                None => !self@.contains_key(request_key(port, req)),
            },
    {
        match self.lookup(port, req.method, &req.path) {
            Some(handler) => Some(handler(req)),
            None => None,
        }
    }
}

/// The port of the plain gateway, which serves the routing table directly.
pub const PLAIN_PORT: u16 = 80;

/// Serves a request that came in on the plain port: with the response of the handler
/// that the table holds for it, and with `404` where it holds none.
pub fn serve_plain<H>(router: &Router<H>, req: &HttpRequest) -> (r: HttpResponse) where
    H: Fn(&HttpRequest) -> HttpResponse,

    requires
        router.wf(),
        router@.contains_key(request_key(PLAIN_PORT, req)) ==> call_requires(
            router@[request_key(PLAIN_PORT, req)],
            (req,),
        ),
    ensures
        if router@.contains_key(request_key(PLAIN_PORT, req)) {
            call_ensures(router@[request_key(PLAIN_PORT, req)], (req,), r)
        } else {
            r@ == bare_response(STATUS_NOT_FOUND)
        },
{
    match router.match_(PLAIN_PORT, req) {
        Some(rep) => rep,
        None => HttpResponse::not_found(),
    }
}

/// A request is matched by the handler that was inserted last under its key, whatever
/// the table held before.
pub proof fn law_inserted_is_matched<H>(
    table: Map<RouteKey, H>,
    port: u16,
    req: &HttpRequest,
    handler: H,
)
    ensures
        table.insert(request_key(port, req), handler).contains_key(request_key(port, req)),
        table.insert(request_key(port, req), handler)[request_key(port, req)] == handler,
{
}

/// An insert or a removal under one key leaves what the table holds under every other
/// key as it was.
pub proof fn law_other_keys_untouched<H>(
    table: Map<RouteKey, H>,
    key: RouteKey,
    handler: H,
    other: RouteKey,
)
    requires
        other != key,
    ensures
        table.insert(key, handler).contains_key(other) == table.contains_key(other),
        table.remove(key).contains_key(other) == table.contains_key(other),
        table.contains_key(other) ==> table.insert(key, handler)[other] == table[other],
        table.contains_key(other) ==> table.remove(key)[other] == table[other],
{
}

/// A request whose key was never inserted is not matched: the empty table holds no key,
/// and an insert under another key adds none but its own.
pub proof fn law_not_inserted_is_missed<H>(
    table: Map<RouteKey, H>,
    port: u16,
    req: &HttpRequest,
    key: RouteKey,
    handler: H,
)
    requires
        !table.contains_key(request_key(port, req)),
        key != request_key(port, req),
    ensures
        !Map::<RouteKey, H>::empty().contains_key(request_key(port, req)),
        !table.insert(key, handler).contains_key(request_key(port, req)),
        !table.remove(key).contains_key(request_key(port, req)),
{
}

/// After the entry under a request's key is removed, the request is no longer matched.
pub proof fn law_removed_is_missed<H>(table: Map<RouteKey, H>, port: u16, req: &HttpRequest)
    ensures
        !table.remove(request_key(port, req)).contains_key(request_key(port, req)),
{
}

} // verus!
