//! The HiDrive API hub: one request description per endpoint.
//!
//! Each endpoint method builds the mandatory parameters from its arguments, appends the
//! caller's optional parameters and names the HTTP method and URL; the dispatcher sends it.
use vstd::prelude::*;
use crate::error::ClientError;
use crate::identifier::Identifier;
use crate::params::{optional_view, EntryView, Params};
use crate::ranges::{format_ranges, ranges_spec};
use crate::request::{Method, Request};
use crate::text::decimal_spec;

verus! {

/// Base of every REST endpoint.
pub const DEFAULT_API_BASE_URL: &'static str = "https://api.hidrive.strato.com/2.1";

/// The notification (WebSocket) endpoint.
pub const DEFAULT_WS_BASE_URL: &'static str = "wss://api.hidrive.strato.com/2.1/subscribe";

/// A request with this method, URL and parameters, in order.
pub open spec fn describes(r: Request, method: Method, url: Seq<char>, params: Seq<EntryView>) -> bool {
    r.method == method && r.url@ == url && r.params@ == params
}

/// The single-entry parameter list `key=value`.
pub open spec fn one(key: Seq<char>, value: Seq<char>) -> Seq<EntryView> {
    seq![(key, value)]
}

fn call(method: Method, base: &String, path: &str, mandatory: &Params, p: Option<&Params>) -> (r: Request)
    ensures
        describes(r, method, base@ + path@, mandatory@ + optional_view(p)),
{
    let mut url = base.clone();
    url.append(path);
    Request { method, url, params: Params::merge(mandatory, p) }
}

/// The API hub, holding the endpoint base URLs.
pub struct HiDrive {
    base_url: String,
    ws_url: String,
}

/// The notification URL for a token: the token travels as the `access_token` parameter.
pub open spec fn notification_url_spec(ws: Seq<char>, token: Seq<char>) -> Seq<char> {
    ws + "?access_token="@ + token
}

impl HiDrive {
    /// The REST base URL.
    pub closed spec fn api_base(&self) -> Seq<char> {
        self.base_url@
    }

    /// The notification endpoint URL.
    pub closed spec fn ws_base(&self) -> Seq<char> {
        self.ws_url@
    }

    /// A hub on the service's public endpoints.
    pub fn new() -> (r: HiDrive)
        ensures
            r.api_base() == DEFAULT_API_BASE_URL@,
            r.ws_base() == DEFAULT_WS_BASE_URL@,
    {
        HiDrive {
            base_url: String::from_str(DEFAULT_API_BASE_URL),
            ws_url: String::from_str(DEFAULT_WS_BASE_URL),
        }
    }

    /// A hub on other endpoints (a test server, a proxy).
    pub fn with_base_urls(api: &str, ws: &str) -> (r: HiDrive)
        ensures
            r.api_base() == api@,
            r.ws_base() == ws@,
    {
        HiDrive { base_url: String::from_str(api), ws_url: String::from_str(ws) }
    }

    /// The REST base URL.
    pub fn base_url(&self) -> (r: &str)
        ensures
            r@ == self.api_base(),
    {
        self.base_url.as_str()
    }

    /// The URL that opens a notification session with `token`.
    pub fn notification_url(&self, token: &str) -> (r: String)
        ensures
            r@ == notification_url_spec(self.ws_base(), token@),
    {
        let mut r = self.ws_url.clone();
        r.append("?access_token=");
        r.append(token);
        r
    }

    /// The /user API.
    pub fn user(&mut self) -> (r: HiDriveUser<'_>)
        ensures
            r.base() == old(self).api_base(),
    {
        HiDriveUser { hd: self }
    }

    /// The /permission API.
    pub fn permissions(&mut self) -> (r: HiDrivePermission<'_>)
        ensures
            r.base() == old(self).api_base(),
    {
        HiDrivePermission { hd: self }
    }

    /// The /file and /dir APIs.
    pub fn files(&mut self) -> (r: HiDriveFiles<'_>)
        ensures
            r.base() == old(self).api_base(),
    {
        HiDriveFiles { hd: self }
    }
}

/// User information.
pub struct HiDriveUser<'a> {
    hd: &'a mut HiDrive,
}

impl<'a> HiDriveUser<'a> {
    /// The REST base URL of the hub.
    pub closed spec fn base(&self) -> Seq<char> {
        self.hd.base_url@
    }

    /// GET /user/me
    pub fn me(&mut self, p: Option<&Params>) -> (r: Request)
        ensures
            describes(r, Method::Get, old(self).base() + "/user/me"@, optional_view(p)),
    {
        let none = Params::new();
        let r = call(Method::Get, &self.hd.base_url, "/user/me", &none, p);
        assert(none@ + optional_view(p) =~= optional_view(p));
        r
    }
}

/// Object permissions.
pub struct HiDrivePermission<'a> {
    hd: &'a mut HiDrive,
}

impl<'a> HiDrivePermission<'a> {
    /// The REST base URL of the hub.
    pub closed spec fn base(&self) -> Seq<char> {
        self.hd.base_url@
    }

    /// GET /permission. Optional parameters: `pid, account, fields`.
    pub fn get_permission(&mut self, id: Identifier, p: Option<&Params>) -> (r: Request)
        ensures
            describes(
                r,
                Method::Get,
                old(self).base() + "/permission"@,
                id.entries("pid"@, "path"@) + optional_view(p),
            ),
    {
        let mut rqp = Params::new();
        id.to_params(&mut rqp, "pid", "path");
        call(Method::Get, &self.hd.base_url, "/permission", &rqp, p)
    }

    /// PUT /permission. Optional parameters: `pid, account, invite_id, readable, writable`.
    pub fn set_permission(&mut self, id: Identifier, p: Option<&Params>) -> (r: Request)
        ensures
            describes(
                r,
                Method::Put,
                old(self).base() + "/permission"@,
                id.entries("pid"@, "path"@) + optional_view(p),
            ),
    {
        let mut rqp = Params::new();
        id.to_params(&mut rqp, "pid", "path");
        call(Method::Put, &self.hd.base_url, "/permission", &rqp, p)
    }
}

/// Files and directories.
///
/// Most calls name their object by `pid` (object id) and `path`: with only `pid` the call acts
/// on that object, with only `path` on that file or directory, and with both `path` is taken
/// relative to `pid`.
pub struct HiDriveFiles<'a> {
    hd: &'a mut HiDrive,
}

/// The entries of an identifier under `pid` and `path`.
pub open spec fn by_pid_path(id: Identifier) -> Seq<EntryView> {
    id.entries("pid"@, "path"@)
}

/// The entries of a source and a destination identifier.
pub open spec fn src_dst(from: Identifier, to: Identifier) -> Seq<EntryView> {
    from.entries("src_id"@, "src"@) + to.entries("dst_id"@, "dst"@)
}

impl<'a> HiDriveFiles<'a> {
    /// The REST base URL of the hub.
    pub closed spec fn base(&self) -> Seq<char> {
        self.hd.base_url@
    }

    fn by_id(&self, method: Method, path: &str, id: Identifier, p: Option<&Params>) -> (r: Request)
        ensures
            describes(r, method, self.base() + path@, by_pid_path(id) + optional_view(p)),
    {
        let mut rqp = Params::new();
        id.to_params(&mut rqp, "pid", "path");
        call(method, &self.hd.base_url, path, &rqp, p)
    }

    fn src_to_dst(&self, path: &str, from: Identifier, to: Identifier, p: Option<&Params>) -> (r:
        Result<Request, ClientError>)
        ensures
            to.has_path() <==> r is Ok,
            r is Err ==> r->Err_0 is InvalidIdentifier,
            r is Ok ==> describes(
                r->Ok_0,
                Method::Post,
                self.base() + path@,
                src_dst(from, to) + optional_view(p),
            ),
    {
        if !to.is_path_like() {
            return Err(ClientError::InvalidIdentifier);
        }
        let mut rqp = Params::new();
        from.to_params(&mut rqp, "src_id", "src");
        to.to_params(&mut rqp, "dst_id", "dst");
        Ok(call(Method::Post, &self.hd.base_url, path, &rqp, p))
    }

    /// GET /file: download a file. Parameters: `pid, path, snapshot, snaptime`.
    pub fn get(&mut self, id: Identifier, p: Option<&Params>) -> (r: Request)
        ensures
            describes(r, Method::Get, old(self).base() + "/file"@, by_pid_path(id) + optional_view(p)),
    {
        self.by_id(Method::Get, "/file", id, p)
    }

    /// GET /file/url: a public URL valid for six hours.
    pub fn url(&mut self, id: Identifier, p: Option<&Params>) -> (r: Request)
        ensures
            describes(
                r,
                Method::Get,
                old(self).base() + "/file/url"@,
                by_pid_path(id) + optional_view(p),
            ),
    {
        self.by_id(Method::Get, "/file/url", id, p)
    }

    /// POST /file: upload a file (at most 2 GiB) into the directory `dir` without overwriting;
    /// an existing file makes the service answer with a conflict. Also available: `mtime,
    /// parent_mtime, on_exist`.
    pub fn upload_no_overwrite(&mut self, dir: Identifier, name: &str, p: Option<&Params>) -> (r:
        Request)
        ensures
            describes(
                r,
                Method::Post,
                old(self).base() + "/file"@,
                dir.entries("dir_id"@, "dir"@) + one("name"@, name@) + optional_view(p),
            ),
    {
        self.upload_(dir, name, p, Method::Post)
    }

    /// PUT /file: upload a file (at most 2 GiB), overwriting an existing one.
    pub fn upload(&mut self, dir: Identifier, name: &str, p: Option<&Params>) -> (r: Request)
        ensures
            describes(
                r,
                Method::Put,
                old(self).base() + "/file"@,
                dir.entries("dir_id"@, "dir"@) + one("name"@, name@) + optional_view(p),
            ),
    {
        self.upload_(dir, name, p, Method::Put)
    }

    fn upload_(&self, dir: Identifier, name: &str, p: Option<&Params>, method: Method) -> (r:
        Request)
        ensures
            describes(
                r,
                method,
                self.base() + "/file"@,
                dir.entries("dir_id"@, "dir"@) + one("name"@, name@) + optional_view(p),
            ),
    {
        let mut rqp = Params::new();
        dir.to_params(&mut rqp, "dir_id", "dir");
        rqp.add_str("name", name);
        assert(rqp@ =~= dir.entries("dir_id"@, "dir"@) + one("name"@, name@));
        call(method, &self.hd.base_url, "/file", &rqp, p)
    }

    /// POST /file/truncate: set a file's size; a larger size makes a sparse file.
    pub fn truncate(&mut self, id: Identifier, size: usize, p: Option<&Params>) -> (r: Request)
        ensures
            describes(
                r,
                Method::Post,
                old(self).base() + "/file/truncate"@,
                one("size"@, decimal_spec(size as nat)) + by_pid_path(id) + optional_view(p),
            ),
    {
        let mut rqp = Params::new();
        rqp.add_uint("size", size);
        id.to_params(&mut rqp, "pid", "path");
        call(Method::Post, &self.hd.base_url, "/file/truncate", &rqp, p)
    }

    /// POST /file/copy from `from` to `to`; `to` must carry a path. Also available: `snapshot,
    /// snaptime, dst_parent_mtime, preserve_mtime`.
    pub fn copy(&mut self, from: Identifier, to: Identifier, p: Option<&Params>) -> (r: Result<
        Request,
        ClientError,
    >)
        ensures
            to.has_path() <==> r is Ok,
            r is Err ==> r->Err_0 is InvalidIdentifier,
            r is Ok ==> describes(
                r->Ok_0,
                Method::Post,
                old(self).base() + "/file/copy"@,
                src_dst(from, to) + optional_view(p),
            ),
    {
        self.src_to_dst("/file/copy", from, to, p)
    }

    /// POST /file/move from `from` to `to`; `to` must carry a path.
    pub fn mv(&mut self, from: Identifier, to: Identifier, p: Option<&Params>) -> (r: Result<
        Request,
        ClientError,
    >)
        ensures
            to.has_path() <==> r is Ok,
            r is Err ==> r->Err_0 is InvalidIdentifier,
            r is Ok ==> describes(
                r->Ok_0,
                Method::Post,
                old(self).base() + "/file/move"@,
                src_dst(from, to) + optional_view(p),
            ),
    {
        self.src_to_dst("/file/move", from, to, p)
    }

    /// GET /file/rename to the new `name`. Useful parameters: `on_exist` (`autoname`,
    /// `overwrite`), `parent_mtime`.
    pub fn rename(&mut self, id: Identifier, name: &str, p: Option<&Params>) -> (r: Request)
        ensures
            describes(
                r,
                Method::Get,
                old(self).base() + "/file/rename"@,
                one("name"@, name@) + by_pid_path(id) + optional_view(p),
            ),
    {
        let mut rqp = Params::new();
        rqp.add_str("name", name);
        id.to_params(&mut rqp, "pid", "path");
        call(Method::Get, &self.hd.base_url, "/file/rename", &rqp, p)
    }

    /// DELETE /file.
    pub fn delete(&mut self, id: Identifier, p: Option<&Params>) -> (r: Request)
        ensures
            describes(
                r,
                Method::Delete,
                old(self).base() + "/file"@,
                by_pid_path(id) + optional_view(p),
            ),
    {
        self.by_id(Method::Delete, "/file", id, p)
    }

    /// GET /file/thumbnail. Optional parameters: `width, height, mode, snapshot, snaptime`.
    pub fn thumbnail(&mut self, id: Identifier, p: Option<&Params>) -> (r: Request)
        ensures
            describes(
                r,
                Method::Get,
                old(self).base() + "/file/thumbnail"@,
                by_pid_path(id) + optional_view(p),
            ),
    {
        self.by_id(Method::Get, "/file/thumbnail", id, p)
    }

    /// GET /meta with the metadata `fields` to return.
    pub fn metadata(&mut self, id: Identifier, fields: &str, p: Option<&Params>) -> (r: Request)
        ensures
            describes(
                r,
                Method::Get,
                old(self).base() + "/meta"@,
                by_pid_path(id) + one("fields"@, fields@) + optional_view(p),
            ),
    {
        let mut rqp = Params::new();
        id.to_params(&mut rqp, "pid", "path");
        rqp.add_str("fields", fields);
        assert(rqp@ =~= by_pid_path(id) + one("fields"@, fields@));
        call(Method::Get, &self.hd.base_url, "/meta", &rqp, p)
    }

    /// GET /search below `root`; `fields` is sent only when it is not empty.
    pub fn search(&mut self, root: Identifier, fields: &str, p: Option<&Params>) -> (r: Request)
        ensures
            describes(
                r,
                Method::Get,
                old(self).base() + "/search"@,
                by_pid_path(root) + (if fields@.len() > 0 {
                    one("fields"@, fields@)
                } else {
                    Seq::empty()
                }) + optional_view(p),
            ),
    {
        let mut rqp = Params::new();
        root.to_params(&mut rqp, "pid", "path");
        if fields.unicode_len() > 0 {
            rqp.add_str("fields", fields);
            assert(rqp@ =~= by_pid_path(root) + one("fields"@, fields@));
        } else {
            assert(rqp@ =~= by_pid_path(root) + Seq::<EntryView>::empty());
        }
        call(Method::Get, &self.hd.base_url, "/search", &rqp, p)
    }

    /// GET /dir: directory metadata. Further parameters: `members, limit, snapshot, snaptime,
    /// fields, sort`.
    pub fn get_dir(&mut self, id: Identifier, p: Option<&Params>) -> (r: Request)
        ensures
            describes(r, Method::Get, old(self).base() + "/dir"@, by_pid_path(id) + optional_view(p)),
    {
        self.by_id(Method::Get, "/dir", id, p)
    }

    /// GET /dir/home: metadata of the home directory.
    pub fn get_home_dir(&mut self, p: Option<&Params>) -> (r: Request)
        ensures
            describes(r, Method::Get, old(self).base() + "/dir/home"@, optional_view(p)),
    {
        let none = Params::new();
        let r = call(Method::Get, &self.hd.base_url, "/dir/home", &none, p);
        assert(none@ + optional_view(p) =~= optional_view(p));
        r
    }

    /// POST /dir: create a directory; `id` must carry a path. Further parameters: `on_exist,
    /// mtime, parent_mtime`.
    pub fn mkdir(&mut self, id: Identifier, p: Option<&Params>) -> (r: Result<Request, ClientError>)
        ensures
            id.has_path() <==> r is Ok,
            r is Err ==> r->Err_0 is InvalidIdentifier,
            r is Ok ==> describes(
                r->Ok_0,
                Method::Post,
                old(self).base() + "/dir"@,
                by_pid_path(id) + optional_view(p),
            ),
    {
        if !id.is_path_like() {
            return Err(ClientError::InvalidIdentifier);
        }
        Ok(self.by_id(Method::Post, "/dir", id, p))
    }

    /// DELETE /dir. Further parameters: `recursive, parent_mtime`.
    pub fn delete_dir(&mut self, id: Identifier, p: Option<&Params>) -> (r: Request)
        ensures
            describes(
                r,
                Method::Delete,
                old(self).base() + "/dir"@,
                by_pid_path(id) + optional_view(p),
            ),
    {
        self.by_id(Method::Delete, "/dir", id, p)
    }

    /// POST /dir/copy; `to` must carry a path. Further parameters: `on_exist, snapshot,
    /// snaptime, dst_parent_mtime, preserve_mtime`.
    pub fn copy_dir(&mut self, from: Identifier, to: Identifier, p: Option<&Params>) -> (r:
        Result<Request, ClientError>)
        ensures
            to.has_path() <==> r is Ok,
            r is Err ==> r->Err_0 is InvalidIdentifier,
            r is Ok ==> describes(
                r->Ok_0,
                Method::Post,
                old(self).base() + "/dir/copy"@,
                src_dst(from, to) + optional_view(p),
            ),
    {
        self.src_to_dst("/dir/copy", from, to, p)
    }

    /// POST /dir/move; `to` must carry a path. Further parameters: `on_exist,
    /// src_parent_mtime, dst_parent_mtime, preserve_mtime`.
    pub fn mvdir(&mut self, from: Identifier, to: Identifier, p: Option<&Params>) -> (r: Result<
        Request,
        ClientError,
    >)
        ensures
            to.has_path() <==> r is Ok,
            r is Err ==> r->Err_0 is InvalidIdentifier,
            r is Ok ==> describes(
                r->Ok_0,
                Method::Post,
                old(self).base() + "/dir/move"@,
                src_dst(from, to) + optional_view(p),
            ),
    {
        self.src_to_dst("/dir/move", from, to, p)
    }

    /// POST /dir/rename to the new `name`.
    pub fn renamedir(&mut self, dir: Identifier, name: &str, p: Option<&Params>) -> (r: Request)
        ensures
            describes(
                r,
                Method::Post,
                old(self).base() + "/dir/rename"@,
                one("name"@, name@) + by_pid_path(dir) + optional_view(p),
            ),
    {
        let mut rqp = Params::new();
        rqp.add_str("name", name);
        dir.to_params(&mut rqp, "pid", "path");
        call(Method::Post, &self.hd.base_url, "/dir/rename", &rqp, p)
    }

    /// GET /file/hash at `level` over `ranges`; no ranges asks for the whole object (at most
    /// 256 hashes).
    pub fn hash(&mut self, id: Identifier, level: usize, ranges: &[(usize, usize)], p: Option<
        &Params,
    >) -> (r: Request)
        ensures
            describes(
                r,
                Method::Get,
                old(self).base() + "/file/hash"@,
                one("level"@, decimal_spec(level as nat)) + by_pid_path(id) + one(
                    "ranges"@,
                    ranges_spec(ranges@),
                ) + optional_view(p),
            ),
    {
        let mut rqp = Params::new();
        rqp.add_uint("level", level);
        id.to_params(&mut rqp, "pid", "path");
        let r = format_ranges(ranges);
        rqp.add_str("ranges", r.as_str());
        assert(rqp@ =~= one("level"@, decimal_spec(level as nat)) + by_pid_path(id) + one(
            "ranges"@,
            ranges_spec(ranges@),
        ));
        call(Method::Get, &self.hd.base_url, "/file/hash", &rqp, p)
    }
}

} // verus!
