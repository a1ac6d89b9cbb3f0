//! The functions that set the configuration of the process.

use vstd::prelude::*;
use crate::atrustapi::asigntse::LoadStep;
use crate::atrustapi::return_codes::ReturnCode;
use crate::config::ConfigStore;
use crate::config::GeneralView;
use crate::config::general_of;
use crate::config::set_config_file;
use crate::config::table_of;
use crate::helpers::ffi::denoted;
use crate::helpers::ffi::from_cstr;
use crate::helpers::ffi::lossy_text;
use crate::ini::ini_document;

verus! {

/// Loads the configuration file whose path the caller named and whose text
/// is `contents`; a file that could not be read has none.
///
/// A file that can be read as sections becomes the configuration, and the log
/// is to be set up next. Else the configuration stays as it was and the
/// function answers that no configuration file was found.
pub fn set_config_file_step(
    store: &mut ConfigStore,
    path: &[u8],
    path_length: u32,
    contents: Option<&str>,
) -> (step: LoadStep)
    requires
        path_length <= path@.len(),
    ensures
        step == if contents is Some && ini_document(contents->0@) is Some {
            LoadStep::ConfigureLogging
        } else {
            LoadStep::Fail(ReturnCode::ConfigFileNotFound)
        },
        step is ConfigureLogging ==> {
            &&& final(store).config_file@ == lossy_text(denoted(path@, path_length))
            &&& final(store).sections() == ini_document(contents->0@)->0
            &&& final(store).configs@ == table_of(final(store).sections())
            &&& final(store).general@ == general_of(old(store).general@, final(store).sections())
        },
        step is Fail ==> *final(store) == *old(store),
{
    let path = from_cstr(path, path_length);
    if set_config_file(store, path.as_str(), contents) {
        LoadStep::ConfigureLogging
    } else {
        LoadStep::Fail(ReturnCode::ConfigFileNotFound)
    }
}

/// Sets the proxy that the caller named.
pub fn set_http_proxy(store: &mut ConfigStore, proxy_url: &[u8], proxy_url_length: u32) -> (code:
    ReturnCode)
    requires
        proxy_url_length <= proxy_url@.len(),
    ensures
        code == ReturnCode::ExecutionOk,
        final(store).general@ == (GeneralView {
            http_proxy: Some(lossy_text(denoted(proxy_url@, proxy_url_length))),
            ..old(store).general@
        }),
        final(store).config_file == old(store).config_file,
        final(store).ini == old(store).ini,
        final(store).configs == old(store).configs,
{
    store.set_http_proxy(from_cstr(proxy_url, proxy_url_length));
    ReturnCode::ExecutionOk
}

/// Sets the proxy that the caller named, with the name and the password that
/// it asks for.
pub fn set_http_proxy_with_username_and_password(
    store: &mut ConfigStore,
    proxy_url: &[u8],
    proxy_url_length: u32,
    proxy_username: &[u8],
    proxy_username_length: u32,
    proxy_password: &[u8],
    proxy_password_length: u32,
) -> (code: ReturnCode)
    requires
        proxy_url_length <= proxy_url@.len(),
        proxy_username_length <= proxy_username@.len(),
        proxy_password_length <= proxy_password@.len(),
    ensures
        code == ReturnCode::ExecutionOk,
        final(store).general@ == (GeneralView {
            http_proxy: Some(lossy_text(denoted(proxy_url@, proxy_url_length))),
            http_proxy_username: Some(lossy_text(denoted(proxy_username@, proxy_username_length))),
            http_proxy_password: Some(lossy_text(denoted(proxy_password@, proxy_password_length))),
            ..old(store).general@
        }),
        final(store).config_file == old(store).config_file,
        final(store).ini == old(store).ini,
        final(store).configs == old(store).configs,
{
    store.set_http_proxy_with_username_and_password(
        from_cstr(proxy_url, proxy_url_length),
        from_cstr(proxy_username, proxy_username_length),
        from_cstr(proxy_password, proxy_password_length),
    );
    ReturnCode::ExecutionOk
}

} // verus!
