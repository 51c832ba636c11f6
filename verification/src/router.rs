//! The router: which handler answers a request with a given method and path.
//!
//! The site exposes the index page at `/`, optionally a fixed greeting at
//! `/api/hello`, and static assets below a mount segment; everything else is
//! not found.

use vstd::prelude::*;

use crate::text::ascii_bytes;
use crate::text::literal_bytes;
use crate::text::bytes_is;
use crate::text::starts_with;
use crate::text::tail_bytes;

verus! {

/// Which routes the site exposes and where static assets hang.
pub struct RouterConfig {
    /// The URL segment under which static assets are exposed, without slashes.
    pub mount: Vec<u8>,
    /// Whether the plain-text greeting route is exposed.
    pub api_hello: bool,
}

impl RouterConfig {
    /// The larger route set: the greeting route, and assets under `/public`.
    pub fn with_hello() -> (c: RouterConfig)
        ensures
            c.mount@ == ascii_bytes("public"@),
            c.api_hello,
    {
        proof {
            reveal_strlit("public");
        }
        RouterConfig { mount: literal_bytes("public"), api_hello: true }
    }

    /// The smaller route set: no greeting route, assets under `/assets`.
    pub fn without_hello() -> (c: RouterConfig)
        ensures
            c.mount@ == ascii_bytes("assets"@),
            !c.api_hello,
    {
        proof {
            reveal_strlit("assets");
        }
        RouterConfig { mount: literal_bytes("assets"), api_hello: false }
    }
}

/// Where a request is dispatched.
#[derive(Debug)]
pub enum Route {
    /// `GET /`: the rendered index page.
    Index,
    /// `GET /api/hello`: the fixed greeting.
    ApiHello,
    /// A static asset: `rel` is its path below the base directory.
    Asset { rel: Vec<u8> },
    /// Anything else.
    NotFound,
}

/// The spec-level image of a `Route`.
pub enum RouteModel {
    Index,
    ApiHello,
    Asset { rel: Seq<u8> },
    NotFound,
}

impl View for Route {
    type V = RouteModel;

    open spec fn view(&self) -> RouteModel {
        match self {
            Route::Index => RouteModel::Index,
            Route::ApiHello => RouteModel::ApiHello,
            Route::Asset { rel } => RouteModel::Asset { rel: rel@ },
            Route::NotFound => RouteModel::NotFound,
        }
    }
}

/// The one request method the site answers.
pub open spec fn get_method() -> Seq<u8> {
    ascii_bytes("GET"@)
}

/// The path of the index page.
pub open spec fn root_path() -> Seq<u8> {
    ascii_bytes("/"@)
}

/// The path of the greeting route.
pub open spec fn hello_path() -> Seq<u8> {
    ascii_bytes("/api/hello"@)
}

/// The URL prefix of the static mount: a slash and the mount segment.
pub open spec fn mount_prefix(mount: Seq<u8>) -> Seq<u8> {
    seq!['/' as u8] + mount
}

/// The path points below the static mount and names something: it reads
/// `/<mount>/<rel>` with a nonempty `<rel>`.
pub open spec fn under_mount(mount: Seq<u8>, path: Seq<u8>) -> bool {
    starts_with(path, mount_prefix(mount).push('/' as u8)) && path.len() > mount_prefix(
        mount,
    ).len() + 1
}

/// The asset path relative to the base directory: what follows `/<mount>/`.
pub open spec fn rel_of(mount: Seq<u8>, path: Seq<u8>) -> Seq<u8> {
    path.subrange(mount_prefix(mount).len() as int + 1, path.len() as int)
}

/// A `..` path segment sits at position `i` of `rel`.
pub open spec fn dotdot_at(rel: Seq<u8>, i: int) -> bool {
    0 <= i && i + 2 <= rel.len() && rel[i] == '.' as u8 && rel[i + 1] == '.' as u8 && (i == 0
        || rel[i - 1] == '/' as u8) && (i + 2 == rel.len() || rel[i + 2] == '/' as u8)
}

/// Some `..` segment occurs in `rel`: such an asset path is never served.
pub open spec fn has_dotdot(rel: Seq<u8>) -> bool {
    exists|i: int| #[trigger] dotdot_at(rel, i)
}

/// The routing table: where a request with this method and path goes.
pub open spec fn route_model(
    mount: Seq<u8>,
    api_hello: bool,
    method: Seq<u8>,
    path: Seq<u8>,
) -> RouteModel {
    if method != get_method() {
        RouteModel::NotFound
    } else if path == root_path() {
        RouteModel::Index
    } else if api_hello && path == hello_path() {
        RouteModel::ApiHello
    } else if under_mount(mount, path) && !has_dotdot(rel_of(mount, path)) {
        RouteModel::Asset { rel: rel_of(mount, path) }
    } else {
        RouteModel::NotFound
    }
}

/// True when `path` reads `/<mount>/<rel>` with a nonempty `<rel>`.
fn path_under_mount(mount: &Vec<u8>, path: &Vec<u8>) -> (r: bool)
    ensures
        r == under_mount(mount@, path@),
{
    if path.len() < 3 || path.len() - 3 < mount.len() {
        proof {
            assert(mount_prefix(mount@).push('/' as u8).len() == mount@.len() + 2);
        }
        return false;
    }
    if path[0] != '/' as u8 {
        proof {
            assert(mount_prefix(mount@).push('/' as u8)[0] == '/' as u8);
            assert(!starts_with(path@, mount_prefix(mount@).push('/' as u8))) by {
                if starts_with(path@, mount_prefix(mount@).push('/' as u8)) {
                    assert(path@.subrange(0, mount@.len() as int + 2)[0] == path@[0]);
                }
            }
        }
        return false;
    }
    let mut j: usize = 0;
    while j < mount.len()
        invariant
            j <= mount@.len(),
            mount@.len() + 3 <= path@.len(),
            path@[0] == '/' as u8,
            forall|k: int| 0 <= k < j ==> path@[k + 1] == mount@[k],
        decreases mount@.len() - j,
    {
        if path[j + 1] != mount[j] {
            proof {
                assert(mount_prefix(mount@).push('/' as u8)[j as int + 1] == mount@[j as int]);
                assert(!starts_with(path@, mount_prefix(mount@).push('/' as u8))) by {
                    if starts_with(path@, mount_prefix(mount@).push('/' as u8)) {
                        assert(path@.subrange(0, mount@.len() as int + 2)[j as int + 1] == path@[j as int + 1]);
                    }
                }
            }
            return false;
        }
        j = j + 1;
    }
    if path[mount.len() + 1] != '/' as u8 {
        proof {
            assert(mount_prefix(mount@).push('/' as u8)[mount@.len() as int + 1] == '/' as u8);
            assert(!starts_with(path@, mount_prefix(mount@).push('/' as u8))) by {
                if starts_with(path@, mount_prefix(mount@).push('/' as u8)) {
                    assert(path@.subrange(0, mount@.len() as int + 2)[mount@.len() as int + 1] == path@[mount@.len() as int + 1]);
                }
            }
        }
        return false;
    }
    proof {
        assert(path@.subrange(0, mount@.len() as int + 2) =~= mount_prefix(mount@).push('/' as u8));
    }
    true
}

/// True when some path segment of `rel` is exactly `..`.
fn rel_has_dotdot(rel: &Vec<u8>) -> (r: bool)
    ensures
        r == has_dotdot(rel@),
{
    if rel.len() < 2 {
        proof {
            assert(forall|i: int| !#[trigger] dotdot_at(rel@, i));
        }
        return false;
    }
    let mut i: usize = 0;
    while i < rel.len() - 1
        invariant
            2 <= rel@.len(),
            i <= rel@.len() - 1,
            forall|j: int| 0 <= j < i ==> !#[trigger] dotdot_at(rel@, j),
        decreases rel@.len() - i,
    {
        if rel[i] == '.' as u8 && rel[i + 1] == '.' as u8 && (i == 0 || rel[i - 1] == '/' as u8) && (
        i + 2 == rel.len() || rel[i + 2] == '/' as u8) {
            proof {
                assert(dotdot_at(rel@, i as int));
            }
            return true;
        }
        i = i + 1;
    }
    proof {
        assert(forall|j: int| !#[trigger] dotdot_at(rel@, j)) by {
            assert(forall|j: int| j >= rel@.len() - 1 ==> !#[trigger] dotdot_at(rel@, j));
        }
    }
    false
}

/// Dispatches one request: the executable routing table.
pub fn route(config: &RouterConfig, method: &Vec<u8>, path: &Vec<u8>) -> (r: Route)
    ensures
        r@ == route_model(config.mount@, config.api_hello, method@, path@),
{
    proof {
        reveal_strlit("GET");
        reveal_strlit("/");
        reveal_strlit("/api/hello");
    }
    if !bytes_is(method, "GET") {
        return Route::NotFound;
    }
    if bytes_is(path, "/") {
        return Route::Index;
    }
    if config.api_hello && bytes_is(path, "/api/hello") {
        return Route::ApiHello;
    }
    if path_under_mount(&config.mount, path) {
        let path_len: usize = path.len();
        proof {
            assert(mount_prefix(config.mount@).len() == config.mount@.len() + 1);
            assert(config.mount@.len() + 2 < path_len);
        }
        let rel = tail_bytes(path, config.mount.len() + 2);
        if !rel_has_dotdot(&rel) {
            proof {
                assert(rel@ =~= rel_of(config.mount@, path@));
            }
            return Route::Asset { rel };
        }
    }
    Route::NotFound
}

} // verus!
