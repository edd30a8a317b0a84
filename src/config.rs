use vstd::prelude::*;

verus! {

/// The environment variable that holds the production store's address.
pub const PROD_DATABASE_VAR: &'static str = "PROD_DATABASE_URL";

/// The environment variable that holds the development store's address.
pub const DEV_DATABASE_VAR: &'static str = "DEV_DATABASE_URL";

/// The build profile under which the production store is used.
pub const RELEASE_PROFILE: &'static str = "release";

/// Which variable names the store's address, given the value of the `PROFILE`
/// variable if it is set: the production one for the release profile, the
/// development one otherwise.
pub fn database_url_var(profile: Option<&str>) -> (r: &'static str)
    ensures
        r@ == (if profile matches Some(p) && p@ == RELEASE_PROFILE@ {
            PROD_DATABASE_VAR@
        } else {
            DEV_DATABASE_VAR@
        }),
{
    match profile {
        Some(p) => {
            let given = p.to_owned();
            let release = RELEASE_PROFILE.to_owned();
            if given == release {
                PROD_DATABASE_VAR
            } else {
                DEV_DATABASE_VAR
            }
        },
        None => DEV_DATABASE_VAR,
    }
}

} // verus!
