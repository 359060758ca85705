use hodlvoice::commands::{hodlvoiceaccept, hodlvoiceadd, hodlvoicereject, ArgVal, CmdError};
use hodlvoice::state::Hodlstate;
use hodlvoice::store::{hodl_record_write, WriteMode};

fn pair(k: &str, v: ArgVal) -> (String, ArgVal) {
    (k.to_string(), v)
}

fn full_args() -> ArgVal {
    ArgVal::Object(vec![
        pair("amount_msat", ArgVal::Num(1000)),
        pair("description", ArgVal::Text("a coffee".to_string())),
        pair("label", ArgVal::Text("order-17".to_string())),
        pair("expiry", ArgVal::Num(3600)),
        pair(
            "fallbacks",
            ArgVal::List(vec![ArgVal::Text("bc1qaddr".to_string())]),
        ),
        pair("preimage", ArgVal::Text("00ff".to_string())),
        pair("exposeprivatechannels", ArgVal::Flag(true)),
        pair("deschashonly", ArgVal::Flag(false)),
    ])
}

#[test]
fn add_accepts_a_full_argument_set() {
    let order = hodlvoiceadd(&full_args(), 34).unwrap();
    assert_eq!(order.amount_msat, 1000);
    assert_eq!(order.description, "a coffee".to_string());
    assert_eq!(order.label, "order-17".to_string());
    assert_eq!(order.expiry, Some(3600));
    assert_eq!(order.fallbacks, Some(vec!["bc1qaddr".to_string()]));
    assert_eq!(order.preimage, Some("00ff".to_string()));
    assert_eq!(order.exposeprivatechannels, Some(true));
    assert_eq!(order.deschashonly, Some(false));
    assert_eq!(order.cltv, 234);
}

#[test]
fn add_sets_the_hold_timelock_requirement() {
    let args = ArgVal::Object(vec![
        pair("amount_msat", ArgVal::Num(5)),
        pair("description", ArgVal::Text("d".to_string())),
        pair("label", ArgVal::Text("l".to_string())),
    ]);
    let order = hodlvoiceadd(&args, 0).unwrap();
    assert_eq!(order.cltv, 200);
    assert_eq!(order.expiry, None);
    assert_eq!(order.fallbacks, None);
    assert_eq!(order.preimage, None);
    assert_eq!(order.exposeprivatechannels, None);
    assert_eq!(order.deschashonly, None);
}

#[test]
fn add_rejects_an_unknown_parameter() {
    let args = ArgVal::Object(vec![
        pair("amount_msat", ArgVal::Num(5)),
        pair("amountmsat", ArgVal::Num(5)),
    ]);
    assert_eq!(
        hodlvoiceadd(&args, 0),
        Err(CmdError::UnknownKey("amountmsat".to_string()))
    );
}

#[test]
fn add_rejects_missing_or_mistyped_required_fields() {
    let no_amount = ArgVal::Object(vec![pair("description", ArgVal::Text("d".to_string()))]);
    assert_eq!(hodlvoiceadd(&no_amount, 0), Err(CmdError::MissingAmount));

    let bad_amount = ArgVal::Object(vec![pair("amount_msat", ArgVal::Text("5".to_string()))]);
    assert_eq!(hodlvoiceadd(&bad_amount, 0), Err(CmdError::InvalidAmount));

    let no_description = ArgVal::Object(vec![pair("amount_msat", ArgVal::Num(5))]);
    assert_eq!(
        hodlvoiceadd(&no_description, 0),
        Err(CmdError::MissingDescription)
    );

    let bad_description = ArgVal::Object(vec![
        pair("amount_msat", ArgVal::Num(5)),
        pair("description", ArgVal::Num(1)),
    ]);
    assert_eq!(
        hodlvoiceadd(&bad_description, 0),
        Err(CmdError::InvalidDescription)
    );

    let no_label = ArgVal::Object(vec![
        pair("amount_msat", ArgVal::Num(5)),
        pair("description", ArgVal::Text("d".to_string())),
    ]);
    assert_eq!(hodlvoiceadd(&no_label, 0), Err(CmdError::MissingLabel));

    let bad_label = ArgVal::Object(vec![
        pair("amount_msat", ArgVal::Num(5)),
        pair("description", ArgVal::Text("d".to_string())),
        pair("label", ArgVal::Flag(true)),
    ]);
    assert_eq!(hodlvoiceadd(&bad_label, 0), Err(CmdError::InvalidLabel));
}

#[test]
fn add_rejects_mistyped_optional_fields() {
    let base = |extra: (String, ArgVal)| {
        ArgVal::Object(vec![
            pair("amount_msat", ArgVal::Num(5)),
            pair("description", ArgVal::Text("d".to_string())),
            pair("label", ArgVal::Text("l".to_string())),
            extra,
        ])
    };
    assert_eq!(
        hodlvoiceadd(&base(pair("expiry", ArgVal::Text("soon".to_string()))), 0),
        Err(CmdError::InvalidExpiry)
    );
    assert_eq!(
        hodlvoiceadd(&base(pair("fallbacks", ArgVal::Num(1))), 0),
        Err(CmdError::InvalidFallbacks)
    );
    assert_eq!(
        hodlvoiceadd(
            &base(pair(
                "fallbacks",
                ArgVal::List(vec![
                    ArgVal::Text("ok".to_string()),
                    ArgVal::Num(3),
                ])
            )),
            0
        ),
        Err(CmdError::InvalidFallbackEntry)
    );
    assert_eq!(
        hodlvoiceadd(&base(pair("preimage", ArgVal::Num(0))), 0),
        Err(CmdError::InvalidPreimage)
    );
    assert_eq!(
        hodlvoiceadd(
            &base(pair("exposeprivatechannels", ArgVal::Text("yes".to_string()))),
            0
        ),
        Err(CmdError::InvalidExposePrivate)
    );
    assert_eq!(
        hodlvoiceadd(&base(pair("deschashonly", ArgVal::Num(1))), 0),
        Err(CmdError::InvalidDeschashonly)
    );
}

#[test]
fn add_rejects_arguments_that_are_no_object() {
    assert_eq!(
        hodlvoiceadd(&ArgVal::List(vec![]), 0),
        Err(CmdError::InvalidArguments)
    );
    assert_eq!(
        hodlvoiceadd(&ArgVal::Num(7), 0),
        Err(CmdError::InvalidArguments)
    );
}

#[test]
fn add_write_registers_the_payment_as_held() {
    let w = hodl_record_write("00aabb");
    assert_eq!(w.key, vec!["hodlvoice".to_string(), "00aabb".to_string()]);
    assert_eq!(w.string, "hodl".to_string());
    assert_eq!(w.mode, WriteMode::MustCreate);
    assert_eq!(Hodlstate::from_str(w.string.as_str()), Some(Hodlstate::Hodl));
}

#[test]
fn accept_writes_a_replace_only_accept_record() {
    let args = ArgVal::List(vec![ArgVal::Text("00aabb".to_string())]);
    let w = hodlvoiceaccept(&args).unwrap();
    assert_eq!(w.key, vec!["hodlvoice".to_string(), "00aabb".to_string()]);
    assert_eq!(w.string, "accept".to_string());
    assert_eq!(w.mode, WriteMode::MustReplace);
    assert_eq!(
        Hodlstate::from_str(w.string.as_str()),
        Some(Hodlstate::Accept)
    );
}

#[test]
fn reject_writes_a_replace_only_reject_record() {
    let args = ArgVal::List(vec![ArgVal::Text("00aabb".to_string())]);
    let w = hodlvoicereject(&args).unwrap();
    assert_eq!(w.key, vec!["hodlvoice".to_string(), "00aabb".to_string()]);
    assert_eq!(w.string, "reject".to_string());
    assert_eq!(w.mode, WriteMode::MustReplace);
    assert_eq!(
        Hodlstate::from_str(w.string.as_str()),
        Some(Hodlstate::Reject)
    );
}

#[test]
fn resolve_commands_demand_exactly_one_text_key() {
    let two = ArgVal::List(vec![
        ArgVal::Text("a".to_string()),
        ArgVal::Text("b".to_string()),
    ]);
    assert_eq!(
        hodlvoiceaccept(&two).unwrap_err(),
        CmdError::NotExactlyOneKey
    );
    assert_eq!(
        hodlvoicereject(&ArgVal::List(vec![])).unwrap_err(),
        CmdError::NotExactlyOneKey
    );

    let not_text = ArgVal::List(vec![ArgVal::Num(1)]);
    assert_eq!(hodlvoiceaccept(&not_text).unwrap_err(), CmdError::KeyNotText);

    let not_a_list = ArgVal::Text("a".to_string());
    assert_eq!(
        hodlvoicereject(&not_a_list).unwrap_err(),
        CmdError::InvalidArguments
    );
}

#[test]
fn repeated_parameter_takes_the_first_value() {
    let args = ArgVal::Object(vec![
        pair("amount_msat", ArgVal::Num(1)),
        pair("amount_msat", ArgVal::Num(2)),
        pair("description", ArgVal::Text("d".to_string())),
        pair("label", ArgVal::Text("l".to_string())),
    ]);
    assert_eq!(hodlvoiceadd(&args, 0).unwrap().amount_msat, 1);
}
