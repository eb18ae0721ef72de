use hd_api::{ClientError, HiDrive, Identifier, Method, Params};

fn entries(p: &Params) -> Vec<(String, String)> {
    (0..p.len()).map(|i| (p.key(i).to_string(), p.value(i).to_string())).collect()
}

fn pair(k: &str, v: &str) -> (String, String) {
    (k.to_string(), v.to_string())
}

#[test]
fn user_me_request() {
    let mut hd = HiDrive::new();
    let r = hd.user().me(None);
    assert_eq!(r.method, Method::Get);
    assert_eq!(r.url, "https://api.hidrive.strato.com/2.1/user/me");
    assert_eq!(r.full_url(), "https://api.hidrive.strato.com/2.1/user/me");
}

#[test]
fn permission_requests() {
    let mut hd = HiDrive::with_base_urls("http://h", "ws://h/sub");
    let mut opt = Params::new();
    opt.add_str("account", "bob");
    let r = hd.permissions().set_permission(Identifier::ByPath("/x".to_string()), Some(&opt));
    assert_eq!(r.method, Method::Put);
    assert_eq!(r.full_url(), "http://h/permission?path=%2Fx&account=bob");
    let g = hd.permissions().get_permission(Identifier::ByPid("7".to_string()), None);
    assert_eq!(g.method, Method::Get);
    assert_eq!(entries(&g.params), vec![pair("pid", "7")]);
}

#[test]
fn hash_request_params() {
    let mut hd = HiDrive::with_base_urls("http://h", "ws://h/sub");
    let r = hd.files().hash(Identifier::ByPid("p1".to_string()), 1, &[(0, 255), (256, 511)], None);
    assert_eq!(r.url, "http://h/file/hash");
    assert_eq!(
        entries(&r.params),
        vec![pair("level", "1"), pair("pid", "p1"), pair("ranges", "0-255,256-511")]
    );
    let e = hd.files().hash(Identifier::ByPath("/f".to_string()), 0, &[], None);
    assert_eq!(e.query(), "level=0&path=%2Ff&ranges=-");
}

#[test]
fn upload_and_truncate_requests() {
    let mut hd = HiDrive::with_base_urls("http://h", "ws://h/sub");
    let dir = Identifier::ByPidAndPath("d1".to_string(), "sub".to_string());
    let r = hd.files().upload_no_overwrite(dir, "f.txt", None);
    assert_eq!(r.method, Method::Post);
    assert_eq!(entries(&r.params), vec![pair("dir_id", "d1"), pair("dir", "sub"), pair("name", "f.txt")]);
    let u = hd.files().upload(Identifier::ByPath("/d".to_string()), "g", None);
    assert_eq!(u.method, Method::Put);
    let t = hd.files().truncate(Identifier::ByPid("f".to_string()), 4096, None);
    assert_eq!(t.full_url(), "http://h/file/truncate?size=4096&pid=f");
}

#[test]
fn copy_requires_path_destination() {
    let mut hd = HiDrive::with_base_urls("http://h", "ws://h/sub");
    let bad = hd.files().copy(Identifier::ByPid("a".to_string()), Identifier::ByPid("b".to_string()), None);
    assert!(matches!(bad, Err(ClientError::InvalidIdentifier)));
    let ok = hd
        .files()
        .mv(Identifier::ByPid("a".to_string()), Identifier::ByPath("/b".to_string()), None)
        .unwrap();
    assert_eq!(ok.url, "http://h/file/move");
    assert_eq!(entries(&ok.params), vec![pair("src_id", "a"), pair("dst", "/b")]);
    assert!(hd.files().mkdir(Identifier::ByPid("x".to_string()), None).is_err());
    let m = hd.files().mkdir(Identifier::ByPath("/new".to_string()), None).unwrap();
    assert_eq!(m.method, Method::Post);
    assert_eq!(m.url, "http://h/dir");
    assert!(hd.files().copy_dir(Identifier::ByPath("/a".to_string()), Identifier::ByPid("b".to_string()), None).is_err());
    let d = hd
        .files()
        .mvdir(Identifier::ByPath("/a".to_string()), Identifier::ByPidAndPath("b".to_string(), "c".to_string()), None)
        .unwrap();
    assert_eq!(d.url, "http://h/dir/move");
}

#[test]
fn search_sends_fields_only_when_given() {
    let mut hd = HiDrive::with_base_urls("http://h", "ws://h/sub");
    let a = hd.files().search(Identifier::ByPath("/".to_string()), "", None);
    assert_eq!(entries(&a.params), vec![pair("path", "/")]);
    let b = hd.files().search(Identifier::ByPath("/".to_string()), "name", None);
    assert_eq!(entries(&b.params), vec![pair("path", "/"), pair("fields", "name")]);
    let m = hd.files().metadata(Identifier::ByPid("i".to_string()), "size", None);
    assert_eq!(m.full_url(), "http://h/meta?pid=i&fields=size");
}

#[test]
fn other_file_and_dir_requests() {
    let mut hd = HiDrive::with_base_urls("http://h", "ws://h/sub");
    let id = || Identifier::ByPid("i".to_string());
    assert_eq!(hd.files().get(id(), None).url, "http://h/file");
    assert_eq!(hd.files().url(id(), None).url, "http://h/file/url");
    assert_eq!(hd.files().delete(id(), None).method, Method::Delete);
    assert_eq!(hd.files().thumbnail(id(), None).url, "http://h/file/thumbnail");
    assert_eq!(hd.files().get_dir(id(), None).url, "http://h/dir");
    assert_eq!(hd.files().get_home_dir(None).url, "http://h/dir/home");
    assert_eq!(hd.files().delete_dir(id(), None).method, Method::Delete);
    let r = hd.files().rename(id(), "n", None);
    assert_eq!(r.method, Method::Get);
    assert_eq!(r.full_url(), "http://h/file/rename?name=n&pid=i");
    let rd = hd.files().renamedir(id(), "n", None);
    assert_eq!(rd.method, Method::Post);
    assert_eq!(rd.url, "http://h/dir/rename");
    let c = hd
        .files()
        .copy(Identifier::ByPath("/a".to_string()), Identifier::ByPath("/b".to_string()), None)
        .unwrap();
    assert_eq!(c.full_url(), "http://h/file/copy?src=%2Fa&dst=%2Fb");
}

#[test]
fn notification_url_carries_token() {
    let hd = HiDrive::new();
    assert_eq!(
        hd.notification_url("tok"),
        "wss://api.hidrive.strato.com/2.1/subscribe?access_token=tok"
    );
    assert_eq!(hd.base_url(), "https://api.hidrive.strato.com/2.1");
}
