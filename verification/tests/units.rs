//! The leaf components: pricing, text handling, gateway formats, the
//! registry listing check, the ledger and the envelope.

use manjaliof_backend::ledger::{Ledger, MemoryLedger};
use manjaliof_backend::manjaliof::Manjaliof;
use manjaliof_backend::pricing::{calculate_tax, compute_total, total_fits};
use manjaliof_backend::response::RequestResult;
use manjaliof_backend::text::{join_comma, lines_of, split_on};
use manjaliof_backend::token::{authenticate, ReferrerToken};
use manjaliof_backend::zarinpal::{
    interpret_request_result, interpret_verify_result, sanitize_description, Zarinpal,
    ZarinpalCode, ZarinpalRequestPayment, ZarinpalRequestPaymentResult,
    ZarinpalRequestPaymentResultData, ZarinpalVerifyPayment, ZarinpalVerifyPaymentResult,
    ZarinpalVerifyPaymentResultData,
};

#[test]
fn tax_is_one_percent_plus_a_percent_of_that() {
    assert_eq!(calculate_tax(550000), 5555);
    assert_eq!(calculate_tax(0), 0);
    assert_eq!(calculate_tax(100), 1);
    assert_eq!(calculate_tax(1100000), 11110);
}

#[test]
fn total_amount_has_the_exact_closed_form() {
    assert_eq!(compute_total(1), 555555);
    assert_eq!(compute_total(2), 1111110);
    assert_eq!(compute_total(7730), 7730 * 555555);
    assert!(total_fits(7730));
    assert!(!total_fits(7731));
}

#[test]
fn joining_and_splitting_round_trip() {
    let names = vec!["someone".to_string(), "anotherone".to_string()];
    let joined = join_comma(&names);
    assert_eq!(joined, "someone,anotherone");
    assert_eq!(split_on(&joined, ','), names);

    assert_eq!(split_on("a,,b", ','), vec!["a", "", "b"]);
    assert_eq!(split_on("", ','), vec![""]);
    assert_eq!(join_comma(&vec!["solo".to_string()]), "solo");
    assert_eq!(split_on("solo", ','), vec!["solo"]);
}

#[test]
fn lines_split_like_line_oriented_output() {
    assert_eq!(lines_of("a b c NOTPAID\nd e f PAID\n"), vec![
        "a b c NOTPAID",
        "d e f PAID"
    ]);
    assert_eq!(lines_of("one\r\ntwo"), vec!["one", "two"]);
    assert_eq!(lines_of(""), Vec::<String>::new());
    assert_eq!(lines_of("\n"), vec![""]);
}

#[test]
fn gateway_codes_translate_to_messages() {
    assert!(ZarinpalCode(100).is_success());
    assert!(!ZarinpalCode(-51).is_success());
    assert_eq!(ZarinpalCode(-51).to_string(), "پرداخت ناموفق");
    assert_eq!(ZarinpalCode(100).to_string(), "عملیات موفق");
    assert_eq!(ZarinpalCode(7).to_string(), "Unknown error");
}

fn request_result(code: i32, authority: &str) -> ZarinpalRequestPaymentResult {
    ZarinpalRequestPaymentResult {
        data: ZarinpalRequestPaymentResultData {
            code: ZarinpalCode(code),
            message: String::new(),
            authority: authority.to_string(),
            fee_type: "Merchant".to_string(),
            fee: 0,
        },
        errors: vec![],
    }
}

#[test]
fn request_answers_yield_the_authority_or_the_code_message() {
    assert_eq!(
        interpret_request_result(request_result(100, "AUTH9")),
        Ok("AUTH9".to_string())
    );
    assert_eq!(
        interpret_request_result(request_result(-11, "ignored")),
        Err("مرچنت کد فعال نیست لطفا با تیم پشتیبانی ما تماس بگیرید".to_string())
    );
}

#[test]
fn verify_answers_yield_unit_or_the_code_message() {
    let answer = |code: i32| ZarinpalVerifyPaymentResult {
        data: ZarinpalVerifyPaymentResultData {
            code: ZarinpalCode(code),
            message: String::new(),
            card_hash: String::new(),
            card_pan: String::new(),
            ref_id: 0,
            fee_type: String::new(),
            fee: 0,
        },
        errors: vec![],
    };
    assert_eq!(interpret_verify_result(answer(100)), Ok(()));
    assert_eq!(
        interpret_verify_result(answer(-54)),
        Err("اتوریتی نامعتبر است".to_string())
    );
}

#[test]
fn descriptions_hide_the_word_ip() {
    assert_eq!(sanitize_description("vip client"), "vserver client");
    assert_eq!(sanitize_description("ip"), "server");
    assert_eq!(sanitize_description("pip"), "pserver");
    assert_eq!(sanitize_description("i"), "i");
    assert_eq!(sanitize_description(""), "");
}

#[test]
fn gateway_payloads_carry_the_configured_merchant() {
    let z = Zarinpal::new("MERCHANT-1".to_string());
    assert_eq!(z.merchant_id, "MERCHANT-1");
    let p = ZarinpalRequestPayment::from("MERCHANT-1".to_string(), 555555, "someone".to_string());
    assert_eq!(p.merchant_id, "MERCHANT-1");
    assert_eq!(p.amount, 555555);
    assert_eq!(p.callback_url, "https://manjaliof.ts22.ir/verify");
    assert_eq!(p.description, "someone");
    let v = ZarinpalVerifyPayment::from("MERCHANT-1".to_string(), "AUTH1".to_string(), 555555);
    assert_eq!(v.merchant_id, "MERCHANT-1");
    assert_eq!(v.authority, "AUTH1");
    assert_eq!(v.amount, 555555);
}

#[test]
fn authentication_resolves_the_first_matching_referrer() {
    let tokens = vec![
        ReferrerToken {
            referrer: "arian".to_string(),
            secret: "somestrongtoken".to_string(),
        },
        ReferrerToken {
            referrer: "other".to_string(),
            secret: "somestrongtoken".to_string(),
        },
    ];
    let secret = "somestrongtoken".to_string();
    let t = authenticate(&tokens, Some(&secret)).unwrap();
    assert_eq!(t.referrer, "arian");
}

#[test]
fn registry_commands_are_built_verbatim() {
    let _ = Manjaliof::new();
    assert_eq!(Manjaliof::list_command_args(), vec!["list", "--trim-whitespace"]);
    assert_eq!(Manjaliof::set_paid_command_args("bob"), vec![
        "set-info",
        "--name",
        "bob",
        "--info",
        "PAID"
    ]);
}

#[test]
fn listing_check_accepts_unpaid_requested_clients() {
    let list = "arian x y NOTPAID z\nother a b PAID c\n";
    let names = vec!["arian".to_string()];
    assert_eq!(Manjaliof::check_clients_list(list, &names), Ok(()));
}

#[test]
fn listing_check_rejects_an_already_paid_client() {
    let list = "arian x y PAID z\n";
    let names = vec!["arian".to_string()];
    assert_eq!(
        Manjaliof::check_clients_list(list, &names),
        Err("client 'arian' is not notpaid, it's 'PAID'".to_string())
    );
}

#[test]
fn listing_check_rejects_missing_clients() {
    let list = "other a b NOTPAID c\n";
    let names = vec!["arian".to_string()];
    assert_eq!(
        Manjaliof::check_clients_list(list, &names),
        Err("cannot find clients".to_string())
    );
    assert_eq!(
        Manjaliof::check_clients_list("", &names),
        Err("cannot find clients".to_string())
    );
}

#[test]
fn ledger_records_and_looks_up_by_authority() {
    let mut ledger = MemoryLedger::new();
    assert_eq!(
        ledger.lookup("AUTH1"),
        Err("authority not exists".to_string())
    );
    ledger
        .record("AUTH1", "a,b", 1111110, "2024-01-01 00:00:00")
        .unwrap();
    assert_eq!(ledger.lookup("AUTH1"), Ok(("a,b".to_string(), 1111110)));
    let dup = ledger.record("AUTH1", "c", 555555, "2024-01-01 00:00:01");
    assert_eq!(dup, Err("authority already exists".to_string()));
    assert_eq!(ledger.lookup("AUTH1"), Ok(("a,b".to_string(), 1111110)));
}

#[test]
fn envelope_renders_success_and_failure() {
    let ok = RequestResult {
        success: true,
        message: "AUTH1".to_string(),
    };
    assert_eq!(ok.to_json(), "{\"success\":true,\"message\":\"AUTH1\"}");
    let no = RequestResult {
        success: false,
        message: "cannot find clients".to_string(),
    };
    assert_eq!(
        no.to_json(),
        "{\"success\":false,\"message\":\"cannot find clients\"}"
    );
}

#[test]
fn envelope_escapes_the_message_like_any_json_encoder() {
    let tricky = RequestResult {
        success: false,
        message: "desrializing '{\"a\":1}' failed:\n\\end\u{1f}".to_string(),
    };
    let rendered = tricky.to_json();
    assert_eq!(
        rendered,
        "{\"success\":false,\"message\":\"desrializing '{\\\"a\\\":1}' failed:\\n\\\\end\\u001f\"}"
    );
    let parsed: serde_json::Value = serde_json::from_str(&rendered).unwrap();
    assert_eq!(
        parsed["message"],
        "desrializing '{\"a\":1}' failed:\n\\end\u{1f}"
    );
    assert_eq!(parsed["success"], false);
}
