//! The settings of a running service.

use vstd::prelude::*;
use vstd::string::StringExecFns;

verus! {

/// The settings of a running service.
#[derive(Clone, Debug)]
pub struct Opt {
    /// Port to listen on.
    pub port: u16,
    /// Directory in which uploads are stored and from which they are served.
    pub base_dir: String,
    /// The complete server URL on which links to uploads are built.
    pub server_url: String,
    /// User name for basic authentication, where uploads are to be protected.
    pub auth_user: Option<String>,
    /// Password for basic authentication, where uploads are to be protected.
    pub auth_pass: Option<String>,
    /// Number of entries on a page of the list of recent uploads.
    pub recents: usize,
    /// Width and height of a thumbnail, in pixels.
    pub thumbnail_size: u32,
    /// Largest upload accepted, in bytes.
    pub max_upload_size: usize,
}

impl Default for Opt {
    /// Port 8088, storage in `./tmp`, links on `http://localhost:8088`, no
    /// authentication, 15 entries a page, thumbnails of 150 pixels, uploads
    /// of up to 2 GiB.
    fn default() -> (opt: Opt)
        ensures
            opt.port == 8088,
            opt.base_dir@ == "./tmp"@,
            opt.server_url@ == "http://localhost:8088"@,
            opt.auth_user is None,
            opt.auth_pass is None,
            opt.recents == 15,
            opt.thumbnail_size == 150,
            opt.max_upload_size == 2_147_483_648,
    {
        Opt {
            port: 8088,
            base_dir: String::from_str("./tmp"),
            server_url: String::from_str("http://localhost:8088"),
            auth_user: None,
            auth_pass: None,
            recents: 15,
            thumbnail_size: 150,
            max_upload_size: 2_147_483_648,
        }
    }
}

} // verus!
