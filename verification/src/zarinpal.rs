//! The Zarinpal payment gateway's data formats and response rules.
//!
//! The gateway answers every request with a numeric status code; exactly one
//! code value means success and each other value is a distinct failure
//! reason, translated here to a human-readable message rather than passed on
//! as a raw number.  This module holds the request payloads sent to the
//! gateway, the shape of its answers, and the verified interpretation of an
//! answer into the workflow's own success-or-message result.  The transport
//! that actually carries the payloads over HTTP stays outside the library.

use vstd::prelude::*;
use vstd::string::*;

verus! {

/// `s` with every occurrence of `"ip"` replaced by `"server"`, leftmost
/// occurrence first and without overlap.
pub open spec fn replace_ip_spec(s: Seq<char>) -> Seq<char>
    decreases s.len(),
{
    if s.len() < 2 {
        s
    } else if s[0] == 'i' && s[1] == 'p' {
        "server"@ + replace_ip_spec(s.skip(2))
    } else {
        seq![s[0]] + replace_ip_spec(s.skip(1))
    }
}

/// A numeric status code as the gateway reports it.
pub struct ZarinpalCode(pub i32);

/// The gateway's message for `code`; one fixed text per known code value.
pub open spec fn code_message(code: int) -> Seq<char> {
    if code == -9 {
        "خطای اعتبار سنجی"@
    } else if code == -10 {
        "ای پی و يا مرچنت كد پذيرنده صحيح نيست"@
    } else if code == -11 {
        "مرچنت کد فعال نیست لطفا با تیم پشتیبانی ما تماس بگیرید"@
    } else if code == -12 {
        "تلاش بیش از حد در یک بازه زمانی کوتاه."@
    } else if code == -15 {
        "ترمینال شما به حالت تعلیق در آمده با تیم پشتیبانی تماس بگیرید"@
    } else if code == -16 {
        "سطح تاييد پذيرنده پايين تر از سطح نقره اي است."@
    } else if code == 100 {
        "عملیات موفق"@
    } else if code == -30 {
        "اجازه دسترسی به تسویه اشتراکی شناور ندارید"@
    } else if code == -31 {
        "حساب بانکی تسویه را به پنل اضافه کنید مقادیر وارد شده واسه تسهیم درست نیست"@
    } else if code == -32 {
        "Wages is not valid, Total wages(floating) has been overload max amount."@
    } else if code == -33 {
        "درصد های وارد شده درست نیست"@
    } else if code == -34 {
        "مبلغ از کل تراکنش بیشتر است"@
    } else if code == -35 {
        "تعداد افراد دریافت کننده تسهیم بیش از حد مجاز است"@
    } else if code == -40 {
        "Invalid extra params, expire_in is not valid."@
    } else if code == -50 {
        "مبلغ پرداخت شده با مقدار مبلغ در وریفای متفاوت است"@
    } else if code == -51 {
        "پرداخت ناموفق"@
    } else if code == -52 {
        "خطای غیر منتظره با پشتیبانی تماس بگیرید"@
    } else if code == -53 {
        "اتوریتی برای این مرچنت کد نیست"@
    } else if code == -54 {
        "اتوریتی نامعتبر است"@
    } else if code == 101 {
        "تراکنش وریفای شده"@
    } else {
        "Unknown error"@
    }
}

impl ZarinpalCode {
    /// Whether the code is the one value the gateway uses for success.
    pub fn is_success(&self) -> (ok: bool)
        ensures
            ok == (self.0 == 100),
    {
        self.0 == 100
    }

    /// The human-readable message for this code.
    pub fn to_string(&self) -> (msg: String)
        ensures
            msg@ == code_message(self.0 as int),
    {
        if self.0 == -9 {
            String::from_str("خطای اعتبار سنجی")
        } else if self.0 == -10 {
            String::from_str("ای پی و يا مرچنت كد پذيرنده صحيح نيست")
        } else if self.0 == -11 {
            String::from_str("مرچنت کد فعال نیست لطفا با تیم پشتیبانی ما تماس بگیرید")
        } else if self.0 == -12 {
            String::from_str("تلاش بیش از حد در یک بازه زمانی کوتاه.")
        } else if self.0 == -15 {
            String::from_str("ترمینال شما به حالت تعلیق در آمده با تیم پشتیبانی تماس بگیرید")
        } else if self.0 == -16 {
            String::from_str("سطح تاييد پذيرنده پايين تر از سطح نقره اي است.")
        } else if self.0 == 100 {
            String::from_str("عملیات موفق")
        } else if self.0 == -30 {
            String::from_str("اجازه دسترسی به تسویه اشتراکی شناور ندارید")
        } else if self.0 == -31 {
            String::from_str("حساب بانکی تسویه را به پنل اضافه کنید مقادیر وارد شده واسه تسهیم درست نیست")
        } else if self.0 == -32 {
            String::from_str("Wages is not valid, Total wages(floating) has been overload max amount.")
        } else if self.0 == -33 {
            String::from_str("درصد های وارد شده درست نیست")
        } else if self.0 == -34 {
            String::from_str("مبلغ از کل تراکنش بیشتر است")
        } else if self.0 == -35 {
            String::from_str("تعداد افراد دریافت کننده تسهیم بیش از حد مجاز است")
        } else if self.0 == -40 {
            String::from_str("Invalid extra params, expire_in is not valid.")
        } else if self.0 == -50 {
            String::from_str("مبلغ پرداخت شده با مقدار مبلغ در وریفای متفاوت است")
        } else if self.0 == -51 {
            String::from_str("پرداخت ناموفق")
        } else if self.0 == -52 {
            String::from_str("خطای غیر منتظره با پشتیبانی تماس بگیرید")
        } else if self.0 == -53 {
            String::from_str("اتوریتی برای این مرچنت کد نیست")
        } else if self.0 == -54 {
            String::from_str("اتوریتی نامعتبر است")
        } else if self.0 == 101 {
            String::from_str("تراکنش وریفای شده")
        } else {
            String::from_str("Unknown error")
        }
    }
}

/// The fixed address the gateway redirects the payer back to.
pub open spec fn callback_url_spec() -> Seq<char> {
    "https://manjaliof.ts22.ir/verify"@
}

/// The merchant-side client of the gateway, configured once at process
/// start with the merchant identity it signs every request with.
pub struct Zarinpal {
    pub merchant_id: String,
}

impl Zarinpal {
    pub fn new(merchant_id: String) -> (z: Self)
        ensures
            z.merchant_id == merchant_id,
    {
        Zarinpal { merchant_id }
    }
}

/// Payload of an authority request: who asks, how much, where the payer
/// returns to, and what the payment is for.
pub struct ZarinpalRequestPayment {
    pub merchant_id: String,
    pub amount: u32,
    pub callback_url: String,
    pub description: String,
}

impl ZarinpalRequestPayment {
    pub fn from(merchant_id: String, amount: u32, description: String) -> (p: Self)
        ensures
            p.merchant_id == merchant_id,
            p.amount == amount,
            p.callback_url@ == callback_url_spec(),
            p.description == description,
    {
        ZarinpalRequestPayment {
            merchant_id,
            amount,
            callback_url: String::from_str("https://manjaliof.ts22.ir/verify"),
            description,
        }
    }
}

/// The gateway's answer to an authority request.
pub struct ZarinpalRequestPaymentResult {
    pub data: ZarinpalRequestPaymentResultData,
    pub errors: Vec<String>,
}

pub struct ZarinpalRequestPaymentResultData {
    pub code: ZarinpalCode,
    pub message: String,
    pub authority: String,
    pub fee_type: String,
    pub fee: u32,
}

/// Payload of a verify call: the authority under test and the exact amount
/// it must have been paid for.
pub struct ZarinpalVerifyPayment {
    pub merchant_id: String,
    pub amount: u32,
    pub authority: String,
}

impl ZarinpalVerifyPayment {
    pub fn from(merchant_id: String, authority: String, amount: u32) -> (p: Self)
        ensures
            p.merchant_id == merchant_id,
            p.amount == amount,
            p.authority == authority,
    {
        ZarinpalVerifyPayment { merchant_id, amount, authority }
    }
}

/// The gateway's answer to a verify call.
pub struct ZarinpalVerifyPaymentResult {
    pub data: ZarinpalVerifyPaymentResultData,
    pub errors: Vec<String>,
}

pub struct ZarinpalVerifyPaymentResultData {
    pub code: ZarinpalCode,
    pub message: String,
    pub card_hash: String,
    pub card_pan: String,
    pub ref_id: u64,
    pub fee_type: String,
    pub fee: u32,
}

/// Reads an authority-request answer: the success code yields the issued
/// authority verbatim, any other code its message.
pub fn interpret_request_result(result: ZarinpalRequestPaymentResult) -> (r: Result<String, String>)
    ensures
        result.data.code.0 == 100 ==> r == Ok::<String, String>(result.data.authority),
        result.data.code.0 != 100 ==> (r matches Err(e) && e@ == code_message(
            result.data.code.0 as int,
        )),
{
    if result.data.code.is_success() {
        Ok(result.data.authority)
    } else {
        Err(result.data.code.to_string())
    }
}

/// Reads a verify answer: the success code means the authority was paid for
/// the presented amount, any other code yields its message.
pub fn interpret_verify_result(result: ZarinpalVerifyPaymentResult) -> (r: Result<(), String>)
    ensures
        result.data.code.0 == 100 ==> r == Ok::<(), String>(()),
        result.data.code.0 != 100 ==> (r matches Err(e) && e@ == code_message(
            result.data.code.0 as int,
        )),
{
    if result.data.code.is_success() {
        Ok(())
    } else {
        Err(result.data.code.to_string())
    }
}

/// Rewrites every occurrence of `"ip"` in a payment description to
/// `"server"`, leftmost first, before the description is sent to the
/// gateway.
pub fn sanitize_description(s: &str) -> (r: String)
    ensures
        r@ == replace_ip_spec(s@),
{
    let n = s.unicode_len();
    let mut out = String::new();
    let mut i: usize = 0;
    proof {
        assert(s@.skip(0) =~= s@);
        assert(out@ + replace_ip_spec(s@) =~= replace_ip_spec(s@));
    }
    while i < n
        invariant
            0 <= i <= n,
            n == s@.len(),
            out@ + replace_ip_spec(s@.skip(i as int)) == replace_ip_spec(s@),
        decreases n - i,
    {
        let ghost prefix = out@;
        let ghost tail = s@.skip(i as int);
        if i + 1 < n && s.get_char(i) == 'i' && s.get_char(i + 1) == 'p' {
            proof {
                assert(tail[0] == s@[i as int]);
                assert(tail[1] == s@[i as int + 1]);
                assert(tail.skip(2) =~= s@.skip(i as int + 2));
            }
            out.append("server");
            proof {
                assert((prefix + "server"@) + replace_ip_spec(s@.skip(i as int + 2)) =~= prefix + (
                "server"@ + replace_ip_spec(s@.skip(i as int + 2))));
            }
            i = i + 2;
        } else {
            let ch = s.substring_char(i, i + 1);
            proof {
                assert(ch@ =~= seq![s@[i as int]]);
                assert(tail.skip(1) =~= s@.skip(i as int + 1));
                if tail.len() >= 2 {
                    assert(tail[0] == s@[i as int]);
                    assert(tail[1] == s@[i as int + 1]);
                }
            }
            out.append(ch);
            proof {
                assert((prefix + seq![s@[i as int]]) + replace_ip_spec(s@.skip(i as int + 1)) =~=
                prefix + (seq![s@[i as int]] + replace_ip_spec(s@.skip(i as int + 1))));
                if tail.len() == 1 {
                    assert(s@.skip(i as int + 1) =~= Seq::<char>::empty());
                    assert(tail =~= seq![s@[i as int]]);
                    assert(seq![s@[i as int]] + Seq::<char>::empty() =~= tail);
                }
            }
            i = i + 1;
        }
    }
    proof {
        assert(s@.skip(n as int) =~= Seq::<char>::empty());
        assert(out@ + Seq::<char>::empty() =~= out@);
    }
    out
}

} // verus!
