//! The WeChat login at a terminal.
use crate::text;
use vstd::prelude::*;

verus! {

/// A text as a QR code of half-block characters, light on dark; none where it is too long
/// for one.
pub uninterp spec fn qr_image(content: Seq<char>) -> Option<Seq<char>>;

/// `qrcode::QrCode::new` on the bytes of a text, rendered with `unicode::Dense1x2` and its
/// colors swapped: a function of the text.
#[verifier::external_body]
fn encode(content: &str) -> (r: Option<String>)
    ensures
        text::opt_text(r) == qr_image(content@),
{
    let code = qrcode::QrCode::new(content.as_bytes()).ok()?;
    Some(
        code.render::<qrcode::render::unicode::Dense1x2>()
            .dark_color(qrcode::render::unicode::Dense1x2::Light)
            .light_color(qrcode::render::unicode::Dense1x2::Dark)
            .build(),
    )
}

/// What is shown of a login code, where `image` is the code; the bare text where it makes
/// none.
pub fn show_code(content: &str, image: Option<&str>) -> (r: String)
    ensures
        r@ == match image {
            Some(img) => "\n"@ + img@ + "\n用微信扫上面的二维码，然后在手机上确认。\n"@,
            None => "\n[二维码内容] "@ + content@ + "\n"@,
        },
{
    match image {
        Some(img) => text::between("\n", img, "\n用微信扫上面的二维码，然后在手机上确认。\n"),
        None => text::between("\n[二维码内容] ", content, "\n"),
    }
}

/// What is shown of a login code.
pub fn render_qr(content: &str) -> (r: String)
    ensures
        r@ == match qr_image(content@) {
            Some(img) => "\n"@ + img + "\n用微信扫上面的二维码，然后在手机上确认。\n"@,
            None => "\n[二维码内容] "@ + content@ + "\n"@,
        },
{
    match encode(content) {
        Some(img) => show_code(content, Some(&img)),
        None => show_code(content, None),
    }
}

/// What is said once the login worked.
pub open spec fn login_text(user: Seq<char>, account: Seq<char>, path: Seq<char>) -> Seq<Seq<char>> {
    seq![
        "✅ 已登录\n  user_id    = "@ + user + "\n  account_id = "@ + account,
        "凭证已保存到 "@ + path,
        "现在可以在 ~/.komo/config.toml 启用 [channels.wechat] 并重启 gateway。"@,
    ]
}

/// What is said once the login worked.
pub fn login(user: &str, account: &str, path: &str) -> (r: Vec<String>)
    ensures
        text::views(r@) == login_text(user@, account@, path@),
{
    let mut head = text::between("✅ 已登录\n  user_id    = ", user, "\n  account_id = ");
    head.push_str(account);
    let mut out = text::only(head);
    text::append_line(&mut out, text::prefixed("凭证已保存到 ", path));
    text::append_line(
        &mut out,
        "现在可以在 ~/.komo/config.toml 启用 [channels.wechat] 并重启 gateway。".to_owned(),
    );
    assert(text::views(out@) =~= login_text(user@, account@, path@));
    out
}

} // verus!
