use vstd::prelude::*;

verus! {

/// The base of every bot-API method URL.
pub open spec fn bot_base(bot_token: Seq<char>) -> Seq<char> {
    "https://api.telegram.org/bot"@ + bot_token
}

/// The greeting served at the proxy's root.
pub fn root() -> (r: &'static str)
    ensures
        r@ == "Hello World!"@,
{
    "Hello World!"
}

/// The URL that asks for the sticker set `sticker_set_name`.
pub fn sticker_set_url(sticker_set_name: &str, bot_token: &str) -> (r: String)
    ensures
        r@ == bot_base(bot_token@) + "/getStickerSet?name="@ + sticker_set_name@,
{
    let mut url = String::from_str("https://api.telegram.org/bot");
    url.append(bot_token);
    url.append("/getStickerSet?name=");
    url.append(sticker_set_name);
    url
}

/// The URL that asks where the file `file_id` is stored.
pub fn file_info_url(file_id: &str, bot_token: &str) -> (r: String)
    ensures
        r@ == bot_base(bot_token@) + "/getFile?file_id="@ + file_id@,
{
    let mut url = String::from_str("https://api.telegram.org/bot");
    url.append(bot_token);
    url.append("/getFile?file_id=");
    url.append(file_id);
    url
}

/// The URL that downloads the file stored at `file_path`.
pub fn file_download_url(bot_token: &str, file_path: &str) -> (r: String)
    ensures
        r@ == "https://api.telegram.org/file/bot"@ + bot_token@ + "/"@ + file_path@,
{
    let mut url = String::from_str("https://api.telegram.org/file/bot");
    url.append(bot_token);
    url.append("/");
    url.append(file_path);
    url
}

} // verus!
