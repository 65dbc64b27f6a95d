//! What the server's configuration says that the screens read.
use vstd::prelude::*;

verus! {

/// The settings that decide how the screens behave.
pub struct Conf {
    /// The password of the admin interface; with none set, anyone may enter it.
    pub admin_password: Option<String>,
    /// The password that players must give to register; with none set, registration is open.
    pub password: Option<String>,
    /// The text of the "about" tab, where there is one.
    pub about: Option<String>,
    /// The banner shown on the home screen.
    pub banner: String,
}

impl Conf {
    /// A configuration made of the given settings.
    pub fn new(
        admin_password: Option<String>,
        password: Option<String>,
        about: Option<String>,
        banner: String,
    ) -> (res: Conf)
        ensures
            res.admin_password == admin_password,
            res.password == password,
            res.about == about,
            res.banner == banner,
    {
        Conf { admin_password, password, about, banner }
    }
}

} // verus!
