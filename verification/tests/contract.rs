use counting_contract::addr::Addr;
use counting_contract::coin::{clone_coins, coins, Coin};
use counting_contract::contract::exec::{
    counts, donate, require_owner, reset, scale_coins, withdraw,
};
use counting_contract::contract::query::value;
use counting_contract::contract::{
    instantiate, migrate, migrate_0_1_0, migrate_0_2_0, CONTRACT_NAME, CONTRACT_VERSION,
};
use counting_contract::decimal::Decimal;
use counting_contract::error::{ContractError, OverflowOperation, StdError};
use counting_contract::host::MessageInfo;
use counting_contract::msg::{ExecMsg, InstantiateMsg, Parent, QueryMsg, ValueResp};
use counting_contract::response::{Attribute, CosmosMsg, Response};
use counting_contract::state::{
    get_contract_version, set_contract_version, ContractVersion, OldState, ParentDonation, State,
    Storage,
};
use counting_contract::text::u64_to_string;

const ATOM: &str = "atom";

fn info(sender: &str, funds: Vec<Coin>) -> MessageInfo {
    MessageInfo {
        sender: Addr::unchecked(sender),
        funds,
    }
}

fn attribute(key: &str, value: &str) -> Attribute {
    Attribute {
        key: key.to_string(),
        value: value.to_string(),
    }
}

fn not_found(key: &str) -> StdError {
    StdError::NotFound {
        kind: key.to_string(),
    }
}

/// A store that `owner` has set up with the minimal donation of 10 atom.
fn plain_store() -> Storage {
    let mut storage = Storage::new();
    instantiate(
        &mut storage,
        &info("owner", vec![]),
        0,
        Coin::new(10, ATOM),
        None,
    )
    .unwrap();
    storage
}

/// A store that `owner` has set up with a parent and no minimal donation.
fn store_with_parent(period: u64, part: Decimal) -> Storage {
    let mut storage = Storage::new();
    instantiate(
        &mut storage,
        &info("owner", vec![]),
        0,
        Coin::new(0, ATOM),
        Some(Parent {
            addr: "parent".to_string(),
            donating_period: period,
            part,
        }),
    )
    .unwrap();
    storage
}

fn counter(storage: &Storage) -> u64 {
    value(storage).unwrap().value
}

#[test]
fn instantiate_fills_the_store() {
    let mut storage = Storage::new();
    let resp = instantiate(
        &mut storage,
        &info("creator", coins(3, ATOM)),
        7,
        Coin::new(10, ATOM),
        Some(Parent {
            addr: "parent".to_string(),
            donating_period: 4,
            part: Decimal::percent(25),
        }),
    )
    .unwrap();

    assert_eq!(
        resp,
        Response {
            messages: vec![],
            attributes: vec![]
        }
    );
    assert_eq!(
        storage,
        Storage {
            state: Some(State {
                counter: 7,
                minimal_donation: Coin::new(10, ATOM),
                donating_parent: Some(4),
            }),
            owner: Some(Addr::unchecked("creator")),
            parent_donation: Some(ParentDonation {
                address: Addr::unchecked("parent"),
                donating_parent_period: 4,
                part: Decimal::percent(25),
            }),
            contract_info: Some(ContractVersion {
                contract: CONTRACT_NAME.to_string(),
                version: CONTRACT_VERSION.to_string(),
            }),
            counter: None,
            minimal_donation: None,
        }
    );
}

#[test]
fn instantiate_without_parent_keeps_no_countdown() {
    let storage = plain_store();
    assert_eq!(
        storage.state,
        Some(State {
            counter: 0,
            minimal_donation: Coin::new(10, ATOM),
            donating_parent: None,
        })
    );
    assert_eq!(storage.parent_donation, None);
    assert_eq!(storage.owner, Some(Addr::unchecked("owner")));
}

#[test]
fn entry_points_dispatch() {
    let mut storage = Storage::new();
    counting_contract::instantiate(
        &mut storage,
        &info("owner", vec![]),
        InstantiateMsg {
            counter: 5,
            minimal_donation: Coin::new(10, ATOM),
            parent: None,
        },
    )
    .unwrap();
    assert_eq!(
        counting_contract::query(&storage, QueryMsg::Value {}),
        Ok(ValueResp { value: 5 })
    );

    counting_contract::execute(
        &mut storage,
        Ok(coins(10, ATOM)),
        &info("sender", coins(10, ATOM)),
        ExecMsg::Donate {},
    )
    .unwrap();
    assert_eq!(counter(&storage), 6);

    counting_contract::execute(
        &mut storage,
        Ok(coins(10, ATOM)),
        &info("owner", vec![]),
        ExecMsg::Reset { counter: 2 },
    )
    .unwrap();
    assert_eq!(counter(&storage), 2);

    let before = storage.clone();
    let resp = counting_contract::execute(
        &mut storage,
        Ok(coins(10, ATOM)),
        &info("owner", vec![]),
        ExecMsg::Withdraw {},
    )
    .unwrap();
    assert_eq!(
        resp.messages,
        vec![CosmosMsg::Send {
            to_address: "owner".to_string(),
            amount: coins(10, ATOM),
        }]
    );
    assert_eq!(storage, before);

    counting_contract::migrate(&mut storage).unwrap();
    assert_eq!(storage, before);
}

#[test]
fn execute_wraps_the_failure_of_a_donation() {
    let mut storage = Storage::new();
    let err = counting_contract::execute(
        &mut storage,
        Ok(vec![]),
        &info("sender", vec![]),
        ExecMsg::Donate {},
    )
    .unwrap_err();
    assert_eq!(err, ContractError::Std(not_found("state")));
    assert_eq!(storage, Storage::new());
}

#[test]
fn round_trip_instantiate_donate_query() {
    let mut storage = plain_store();
    donate(
        &mut storage,
        Ok(coins(10, ATOM)),
        &info("sender", coins(10, ATOM)),
    )
    .unwrap();
    assert_eq!(value(&storage), Ok(ValueResp { value: 1 }));
}

#[test]
fn donation_below_the_minimum_changes_nothing() {
    let mut storage = plain_store();
    let before = storage.clone();

    for funds in [
        vec![],
        coins(9, ATOM),
        coins(10, "btc"),
        vec![Coin::new(1_000, "btc"), Coin::new(9, ATOM)],
    ] {
        let resp = donate(&mut storage, Ok(coins(50, ATOM)), &info("sender", funds)).unwrap();
        assert_eq!(resp.messages, vec![]);
        assert_eq!(
            resp.attributes,
            vec![
                attribute("action", "donate"),
                attribute("sender", "sender"),
                attribute("counter", "0"),
            ]
        );
        assert_eq!(storage, before);
    }
}

#[test]
fn attached_coins_are_not_added_up() {
    let mut storage = plain_store();
    let funds = vec![Coin::new(5, ATOM), Coin::new(5, ATOM)];
    assert!(!counts(&Coin::new(10, ATOM), &funds));
    donate(&mut storage, Ok(coins(10, ATOM)), &info("sender", funds)).unwrap();
    assert_eq!(counter(&storage), 0);
}

#[test]
fn one_coin_that_reaches_the_minimum_is_enough() {
    let minimal = Coin::new(10, ATOM);
    assert!(counts(&minimal, &coins(10, ATOM)));
    assert!(counts(&minimal, &coins(11, ATOM)));
    assert!(counts(
        &minimal,
        &vec![Coin::new(1, "btc"), Coin::new(3, ATOM), Coin::new(12, ATOM)]
    ));
    assert!(!counts(&minimal, &coins(9, ATOM)));
    assert!(!counts(&minimal, &coins(10, "atoms")));
    assert!(!counts(&minimal, &vec![]));
}

#[test]
fn minimum_of_zero_counts_every_donation() {
    assert!(counts(&Coin::new(0, ATOM), &vec![]));
    assert!(counts(&Coin::new(0, ATOM), &coins(1, "btc")));

    let mut storage = Storage::new();
    instantiate(
        &mut storage,
        &info("owner", vec![]),
        0,
        Coin::new(0, ATOM),
        None,
    )
    .unwrap();
    donate(&mut storage, Ok(vec![]), &info("sender", vec![])).unwrap();
    donate(&mut storage, Ok(vec![]), &info("sender", coins(1, "btc"))).unwrap();
    assert_eq!(counter(&storage), 2);
}

#[test]
fn counted_donation_counts_once() {
    let mut storage = plain_store();
    let before = storage.clone();
    let resp = donate(
        &mut storage,
        Ok(coins(10, ATOM)),
        &info("sender", coins(10, ATOM)),
    )
    .unwrap();

    assert_eq!(resp.messages, vec![]);
    assert_eq!(
        resp.attributes,
        vec![
            attribute("action", "donate"),
            attribute("sender", "sender"),
            attribute("counter", "1"),
        ]
    );
    assert_eq!(
        storage,
        Storage {
            state: Some(State {
                counter: 1,
                minimal_donation: Coin::new(10, ATOM),
                donating_parent: None,
            }),
            ..before
        }
    );
}

#[test]
fn countdown_goes_down_by_one() {
    let mut storage = store_with_parent(3, Decimal::percent(10));
    let resp = donate(&mut storage, Ok(coins(10, ATOM)), &info("sender", vec![])).unwrap();
    assert_eq!(resp.messages, vec![]);
    assert_eq!(
        storage.state,
        Some(State {
            counter: 1,
            minimal_donation: Coin::new(0, ATOM),
            donating_parent: Some(2),
        })
    );
}

#[test]
fn forwarding_falls_due_with_the_last_donation_of_each_period() {
    let mut storage = store_with_parent(3, Decimal::percent(10));
    let expected_config = storage.parent_donation.clone();

    for round in 0..2u64 {
        for step in 1..=2u64 {
            let resp = donate(&mut storage, Ok(coins(100, ATOM)), &info("sender", vec![])).unwrap();
            assert_eq!(resp.messages, vec![]);
            assert_eq!(
                storage.state.as_ref().unwrap().donating_parent,
                Some(3 - step)
            );
        }
        let held = vec![Coin::new(57, ATOM), Coin::new(1_009, "btc")];
        let resp = donate(&mut storage, Ok(held), &info("sender", vec![])).unwrap();
        assert_eq!(
            resp.messages,
            vec![CosmosMsg::Execute {
                contract_addr: "parent".to_string(),
                msg: ExecMsg::Donate {},
                funds: vec![Coin::new(5, ATOM), Coin::new(100, "btc")],
            }]
        );
        assert_eq!(
            resp.attributes,
            vec![
                attribute("donated_to_parent", "parent"),
                attribute("action", "donate"),
                attribute("sender", "sender"),
                attribute("counter", &(3 * (round + 1)).to_string()),
            ]
        );
        assert_eq!(
            storage.state,
            Some(State {
                counter: 3 * (round + 1),
                minimal_donation: Coin::new(0, ATOM),
                donating_parent: Some(3),
            })
        );
        assert_eq!(storage.parent_donation, expected_config);
    }
}

#[test]
fn donations_below_the_minimum_do_not_move_the_countdown() {
    let mut storage = Storage::new();
    instantiate(
        &mut storage,
        &info("owner", vec![]),
        0,
        Coin::new(10, ATOM),
        Some(Parent {
            addr: "parent".to_string(),
            donating_period: 2,
            part: Decimal::percent(10),
        }),
    )
    .unwrap();

    donate(&mut storage, Ok(coins(10, ATOM)), &info("a", coins(10, ATOM))).unwrap();
    let resp = donate(&mut storage, Ok(coins(19, ATOM)), &info("b", coins(9, ATOM))).unwrap();
    assert_eq!(resp.messages, vec![]);
    assert_eq!(storage.state.as_ref().unwrap().donating_parent, Some(1));
    let resp = donate(&mut storage, Ok(coins(29, ATOM)), &info("c", coins(10, ATOM))).unwrap();
    assert_eq!(
        resp.messages,
        vec![CosmosMsg::Execute {
            contract_addr: "parent".to_string(),
            msg: ExecMsg::Donate {},
            funds: coins(2, ATOM),
        }]
    );
    assert_eq!(storage.state.as_ref().unwrap().donating_parent, Some(2));
    assert_eq!(counter(&storage), 2);
}

#[test]
fn forwarding_an_empty_balance_sends_no_coins() {
    let mut storage = store_with_parent(1, Decimal::percent(50));
    let resp = donate(&mut storage, Ok(vec![]), &info("sender", vec![])).unwrap();
    assert_eq!(
        resp.messages,
        vec![CosmosMsg::Execute {
            contract_addr: "parent".to_string(),
            msg: ExecMsg::Donate {},
            funds: vec![],
        }]
    );
    assert_eq!(storage.state.as_ref().unwrap().donating_parent, Some(1));
}

#[test]
fn period_of_zero_fails_the_first_counted_donation() {
    let mut storage = store_with_parent(0, Decimal::percent(10));
    assert_eq!(storage.state.as_ref().unwrap().donating_parent, Some(0));
    let before = storage.clone();

    let err = donate(&mut storage, Ok(coins(10, ATOM)), &info("sender", vec![])).unwrap_err();
    assert_eq!(
        err,
        StdError::Overflow {
            operation: OverflowOperation::Sub
        }
    );
    assert_eq!(storage, before);
}

#[test]
fn counter_at_its_largest_value_fails_the_donation() {
    let mut storage = Storage::new();
    instantiate(
        &mut storage,
        &info("owner", vec![]),
        u64::MAX,
        Coin::new(0, ATOM),
        None,
    )
    .unwrap();
    let before = storage.clone();

    let err = donate(&mut storage, Ok(vec![]), &info("sender", vec![])).unwrap_err();
    assert_eq!(
        err,
        StdError::Overflow {
            operation: OverflowOperation::Add
        }
    );
    assert_eq!(storage, before);
}

#[test]
fn donation_needs_a_state() {
    let mut storage = Storage::new();
    let err = donate(&mut storage, Ok(vec![]), &info("sender", vec![])).unwrap_err();
    assert_eq!(err, not_found("state"));
    assert_eq!(value(&storage), Err(not_found("state")));
}

#[test]
fn forwarding_needs_the_configuration_of_the_parent() {
    let mut storage = store_with_parent(1, Decimal::percent(10));
    storage.parent_donation = None;
    let before = storage.clone();

    let err = donate(&mut storage, Ok(coins(10, ATOM)), &info("sender", vec![])).unwrap_err();
    assert_eq!(err, not_found("parent_donation"));
    assert_eq!(storage, before);
}

#[test]
fn failure_of_the_host_matters_only_when_forwarding_falls_due() {
    let mut storage = store_with_parent(2, Decimal::percent(10));
    let down = || Err(StdError::generic_err("bank is down"));

    donate(&mut storage, down(), &info("sender", vec![])).unwrap();
    assert_eq!(counter(&storage), 1);

    let before = storage.clone();
    let err = donate(&mut storage, down(), &info("sender", vec![])).unwrap_err();
    assert_eq!(
        err,
        StdError::GenericErr {
            msg: "bank is down".to_string()
        }
    );
    assert_eq!(storage, before);
}

#[test]
fn scaling_rounds_down() {
    let balance = vec![
        Coin::new(0, "a"),
        Coin::new(9, "b"),
        Coin::new(10, "c"),
        Coin::new(19, "d"),
        Coin::new(u128::MAX, "e"),
    ];
    assert_eq!(
        scale_coins(clone_coins(&balance), Decimal::percent(10)),
        Ok(vec![
            Coin::new(0, "a"),
            Coin::new(0, "b"),
            Coin::new(1, "c"),
            Coin::new(1, "d"),
            Coin::new(34028236692093846346337460743176821145, "e"),
        ])
    );
    assert_eq!(
        scale_coins(coins(7, ATOM), Decimal::raw(333_333_333_333_333_333)),
        Ok(coins(2, ATOM))
    );
    assert_eq!(
        scale_coins(coins(3, ATOM), Decimal::raw(333_333_333_333_333_333)),
        Ok(coins(0, ATOM))
    );
    assert_eq!(
        scale_coins(clone_coins(&balance), Decimal::one()),
        Ok(clone_coins(&balance))
    );
    assert_eq!(
        scale_coins(coins(u128::MAX, ATOM), Decimal::zero()),
        Ok(coins(0, ATOM))
    );
    assert_eq!(scale_coins(vec![], Decimal::percent(10)), Ok(vec![]));
}

#[test]
fn scaling_agrees_with_the_product_of_amount_and_decimal() {
    let amounts = [0u128, 1, 9, 10, 99, 12_345_678_901_234_567_890, u128::MAX];
    let percents = [0u64, 1, 10, 33, 50, 99, 100];
    for amount in amounts {
        for percent in percents {
            let product =
                cosmwasm_std::Uint128::new(amount) * cosmwasm_std::Decimal::percent(percent);
            assert_eq!(
                scale_coins(coins(amount, ATOM), Decimal::percent(percent)),
                Ok(coins(product.u128(), ATOM))
            );
        }
    }
}

#[test]
fn part_of_more_than_one_fails_where_the_amount_does_not_fit() {
    assert_eq!(
        scale_coins(coins(10, ATOM), Decimal::percent(250)),
        Ok(coins(25, ATOM))
    );
    assert_eq!(
        scale_coins(coins(u128::MAX, ATOM), Decimal::percent(101)),
        Err(StdError::Overflow {
            operation: OverflowOperation::Mul
        })
    );

    let mut storage = store_with_parent(1, Decimal::percent(200));
    let before = storage.clone();
    let held = vec![Coin::new(1, ATOM), Coin::new(u128::MAX, "btc")];
    let err = donate(&mut storage, Ok(held), &info("sender", vec![])).unwrap_err();
    assert_eq!(
        err,
        StdError::Overflow {
            operation: OverflowOperation::Mul
        }
    );
    assert_eq!(storage, before);
}

#[test]
fn owner_passes_the_guard_and_nobody_else() {
    let storage = plain_store();
    assert_eq!(require_owner(&storage, &Addr::unchecked("owner")), Ok(()));
    for caller in ["member", "Owner", "owner ", "", "sender"] {
        assert_eq!(
            require_owner(&storage, &Addr::unchecked(caller)),
            Err(ContractError::Unauthorized {
                owner: "owner".to_string()
            })
        );
    }
    assert_eq!(
        require_owner(&Storage::new(), &Addr::unchecked("owner")),
        Err(ContractError::Std(not_found("owner")))
    );
}

#[test]
fn nobody_but_the_owner_resets_or_withdraws() {
    let mut storage = plain_store();
    let before = storage.clone();
    for caller in ["member", "sender", "parent", ""] {
        let unauthorized = ContractError::Unauthorized {
            owner: "owner".to_string(),
        };
        assert_eq!(
            reset(&mut storage, &info(caller, vec![]), 10),
            Err(ContractError::Unauthorized {
                owner: "owner".to_string()
            })
        );
        assert_eq!(
            withdraw(&storage, Ok(coins(10, ATOM)), &info(caller, vec![])),
            Err(unauthorized)
        );
        assert_eq!(storage, before);
    }
}

#[test]
fn reset_sets_the_counter_only() {
    let mut storage = store_with_parent(3, Decimal::percent(10));
    donate(&mut storage, Ok(vec![]), &info("sender", vec![])).unwrap();
    let before = storage.clone();

    let resp = reset(&mut storage, &info("owner", vec![]), 1234567890).unwrap();
    assert_eq!(
        resp,
        Response {
            messages: vec![],
            attributes: vec![
                attribute("action", "reset"),
                attribute("sender", "owner"),
                attribute("counter", "1234567890"),
            ],
        }
    );
    assert_eq!(
        storage,
        Storage {
            state: Some(State {
                counter: 1234567890,
                minimal_donation: Coin::new(0, ATOM),
                donating_parent: Some(2),
            }),
            ..before
        }
    );
}

#[test]
fn reset_needs_a_state() {
    let mut storage = Storage::new();
    storage.save_owner(Addr::unchecked("owner"));
    assert_eq!(
        reset(&mut storage, &info("owner", vec![]), 3),
        Err(ContractError::Std(not_found("state")))
    );
    assert_eq!(storage.state, None);
}

#[test]
fn withdraw_sends_the_whole_balance_to_the_owner() {
    let storage = plain_store();
    let held = vec![Coin::new(15, ATOM), Coin::new(2, "btc")];
    let resp = withdraw(&storage, Ok(clone_coins(&held)), &info("owner", vec![])).unwrap();
    assert_eq!(
        resp,
        Response {
            messages: vec![CosmosMsg::Send {
                to_address: "owner".to_string(),
                amount: held,
            }],
            attributes: vec![
                attribute("action", "withdraw"),
                attribute("sender", "owner"),
            ],
        }
    );
}

#[test]
fn withdraw_hands_on_the_failure_of_the_host() {
    let storage = plain_store();
    assert_eq!(
        withdraw(
            &storage,
            Err(StdError::generic_err("bank is down")),
            &info("owner", vec![])
        ),
        Err(ContractError::Std(StdError::GenericErr {
            msg: "bank is down".to_string()
        }))
    );
    assert_eq!(
        withdraw(
            &storage,
            Err(StdError::generic_err("bank is down")),
            &info("member", vec![])
        ),
        Err(ContractError::Unauthorized {
            owner: "owner".to_string()
        })
    );
}

fn first_layout() -> Storage {
    Storage {
        state: None,
        owner: Some(Addr::unchecked("owner")),
        parent_donation: None,
        contract_info: Some(ContractVersion {
            contract: CONTRACT_NAME.to_string(),
            version: "0.1.0".to_string(),
        }),
        counter: Some(41),
        minimal_donation: Some(Coin::new(10, ATOM)),
    }
}

fn second_layout() -> Storage {
    Storage {
        state: Some(State {
            counter: 42,
            minimal_donation: Coin::new(10, ATOM),
            donating_parent: None,
        }),
        owner: Some(Addr::unchecked("owner")),
        parent_donation: None,
        contract_info: Some(ContractVersion {
            contract: CONTRACT_NAME.to_string(),
            version: "0.2.0".to_string(),
        }),
        counter: None,
        minimal_donation: None,
    }
}

fn current_mark() -> Option<ContractVersion> {
    Some(ContractVersion {
        contract: CONTRACT_NAME.to_string(),
        version: CONTRACT_VERSION.to_string(),
    })
}

#[test]
fn migration_from_the_first_layout() {
    let mut storage = first_layout();
    let resp = migrate(&mut storage).unwrap();
    assert_eq!(
        resp,
        Response {
            messages: vec![],
            attributes: vec![]
        }
    );
    assert_eq!(
        storage,
        Storage {
            state: Some(State {
                counter: 41,
                minimal_donation: Coin::new(10, ATOM),
                donating_parent: None,
            }),
            contract_info: current_mark(),
            ..first_layout()
        }
    );
    assert_eq!(counter(&storage), 41);
}

#[test]
fn migration_from_the_second_layout() {
    let mut storage = second_layout();
    migrate(&mut storage).unwrap();
    assert_eq!(
        storage,
        Storage {
            contract_info: current_mark(),
            ..second_layout()
        }
    );

    let mut storage = second_layout();
    storage.state.as_mut().unwrap().donating_parent = Some(5);
    migrate_0_2_0(&mut storage).unwrap();
    assert_eq!(
        storage.state,
        Some(State {
            counter: 42,
            minimal_donation: Coin::new(10, ATOM),
            donating_parent: None,
        })
    );
}

#[test]
fn migration_from_the_current_version_changes_nothing() {
    let mut storage = store_with_parent(3, Decimal::percent(10));
    donate(&mut storage, Ok(vec![]), &info("sender", vec![])).unwrap();
    let before = storage.clone();

    let resp = migrate(&mut storage).unwrap();
    assert_eq!(
        resp,
        Response {
            messages: vec![],
            attributes: vec![]
        }
    );
    assert_eq!(storage, before);

    let mut storage = first_layout();
    migrate(&mut storage).unwrap();
    let once = storage.clone();
    migrate(&mut storage).unwrap();
    assert_eq!(storage, once);
}

#[test]
fn migration_from_an_unknown_version_fails() {
    for version in ["0.0.9", "0.4.0", "1.0.0", "", "0.1.00", "v0.1.0"] {
        let mut storage = first_layout();
        set_contract_version(&mut storage, CONTRACT_NAME, version);
        let before = storage.clone();
        assert_eq!(
            migrate(&mut storage),
            Err(ContractError::InvalidVersion(version.to_string()))
        );
        assert_eq!(storage, before);
    }
}

#[test]
fn migration_of_other_code_fails() {
    let mut storage = first_layout();
    set_contract_version(&mut storage, "another_contract", "0.1.0");
    let before = storage.clone();
    assert_eq!(
        migrate(&mut storage),
        Err(ContractError::InvalidName("another_contract".to_string()))
    );
    assert_eq!(storage, before);
}

#[test]
fn migration_needs_the_mark_and_the_old_records() {
    let mut storage = Storage::new();
    assert_eq!(
        migrate(&mut storage),
        Err(ContractError::Std(not_found("contract_info")))
    );

    let mut storage = first_layout();
    storage.counter = None;
    let before = storage.clone();
    assert_eq!(
        migrate(&mut storage),
        Err(ContractError::Std(not_found("counter")))
    );
    assert_eq!(storage, before);
    assert_eq!(migrate_0_1_0(&mut storage), Err(not_found("counter")));

    let mut storage = first_layout();
    storage.minimal_donation = None;
    assert_eq!(
        migrate(&mut storage),
        Err(ContractError::Std(not_found("minimal_donation")))
    );
    assert_eq!(
        migrate_0_1_0(&mut storage),
        Err(not_found("minimal_donation"))
    );

    let mut storage = second_layout();
    storage.state = None;
    let before = storage.clone();
    assert_eq!(
        migrate(&mut storage),
        Err(ContractError::Std(not_found("state")))
    );
    assert_eq!(storage, before);
    assert_eq!(migrate_0_2_0(&mut storage), Err(not_found("state")));
}

#[test]
fn single_migrations_leave_the_mark_alone() {
    let mut storage = first_layout();
    migrate_0_1_0(&mut storage).unwrap();
    assert_eq!(storage.contract_info, first_layout().contract_info);
    assert_eq!(
        storage.state,
        Some(State {
            counter: 41,
            minimal_donation: Coin::new(10, ATOM),
            donating_parent: None,
        })
    );
    assert_eq!(storage.counter, Some(41));
}

#[test]
fn store_loads_what_was_saved() {
    let mut storage = Storage::new();
    assert_eq!(storage.load_state(), Err(not_found("state")));
    assert_eq!(storage.load_owner(), Err(not_found("owner")));
    assert_eq!(
        storage.load_parent_donation(),
        Err(not_found("parent_donation"))
    );
    assert_eq!(storage.load_legacy_counter(), Err(not_found("counter")));
    assert_eq!(
        storage.load_legacy_minimal_donation(),
        Err(not_found("minimal_donation"))
    );
    assert_eq!(storage.load_old_state(), Err(not_found("state")));
    assert_eq!(
        get_contract_version(&storage),
        Err(not_found("contract_info"))
    );

    let state = State {
        counter: 3,
        minimal_donation: Coin::new(10, ATOM),
        donating_parent: Some(2),
    };
    storage.save_state(state.clone());
    storage.save_state(State {
        counter: 4,
        ..state.clone()
    });
    assert_eq!(
        storage.load_state(),
        Ok(State {
            counter: 4,
            ..state.clone()
        })
    );
    assert_eq!(
        storage.load_old_state(),
        Ok(OldState {
            counter: 4,
            minimal_donation: Coin::new(10, ATOM),
        })
    );

    storage.save_owner(Addr::unchecked("owner"));
    assert_eq!(storage.load_owner(), Ok(Addr::unchecked("owner")));

    let config = ParentDonation {
        address: Addr::unchecked("parent"),
        donating_parent_period: 2,
        part: Decimal::percent(10),
    };
    storage.save_parent_donation(config.clone());
    assert_eq!(storage.load_parent_donation(), Ok(config));

    set_contract_version(&mut storage, "name", "1.2.3");
    assert_eq!(
        get_contract_version(&storage),
        Ok(ContractVersion {
            contract: "name".to_string(),
            version: "1.2.3".to_string(),
        })
    );

    storage.counter = Some(9);
    storage.minimal_donation = Some(Coin::new(1, "btc"));
    assert_eq!(storage.load_legacy_counter(), Ok(9));
    assert_eq!(
        storage.load_legacy_minimal_donation(),
        Ok(Coin::new(1, "btc"))
    );
}

#[test]
fn update_saves_what_the_action_returns() {
    let mut storage = plain_store();
    let updated = storage.update_state(|mut state| {
        state.counter += 5;
        Ok(state)
    });
    let expected = State {
        counter: 5,
        minimal_donation: Coin::new(10, ATOM),
        donating_parent: None,
    };
    assert_eq!(updated, Ok(expected.clone()));
    assert_eq!(storage.state, Some(expected));
}

#[test]
fn update_that_fails_leaves_the_store() {
    let mut storage = plain_store();
    let before = storage.clone();
    let updated = storage.update_state(|_| Err(StdError::generic_err("no")));
    assert_eq!(
        updated,
        Err(StdError::GenericErr {
            msg: "no".to_string()
        })
    );
    assert_eq!(storage, before);

    let mut empty = Storage::new();
    assert_eq!(empty.update_state(Ok), Err(not_found("state")));
    assert_eq!(empty, Storage::new());
}

#[test]
fn numbers_are_written_in_base_ten() {
    assert_eq!(u64_to_string(0), "0");
    assert_eq!(u64_to_string(7), "7");
    assert_eq!(u64_to_string(10), "10");
    assert_eq!(u64_to_string(1234567890), "1234567890");
    assert_eq!(u64_to_string(u64::MAX), "18446744073709551615");
    for n in [0u64, 9, 99, 100, 101, 4096, 999_999_999_999] {
        assert_eq!(u64_to_string(n), n.to_string());
    }
}

#[test]
fn decimals_count_in_atomic_units() {
    assert_eq!(Decimal::zero().atomics(), 0);
    assert_eq!(Decimal::one().atomics(), 1_000_000_000_000_000_000);
    assert_eq!(Decimal::percent(10).atomics(), 100_000_000_000_000_000);
    assert_eq!(Decimal::percent(100), Decimal::one());
    assert_eq!(Decimal::raw(5).atomics(), 5);
    assert_eq!(
        Decimal::percent(u64::MAX).atomics(),
        184467440737095516150000000000000000
    );
    for percent in [0u64, 1, 10, 100, 12345, u64::MAX] {
        assert_eq!(
            Decimal::percent(percent).atomics(),
            cosmwasm_std::Decimal::percent(percent).atomics().u128()
        );
    }
}

#[test]
fn coins_and_addresses_carry_their_text() {
    assert_eq!(
        Coin::new(10, ATOM),
        Coin {
            denom: "atom".to_string(),
            amount: 10
        }
    );
    assert_eq!(coins(10, ATOM), vec![Coin::new(10, ATOM)]);
    let list = vec![Coin::new(1, "a"), Coin::new(2, "b")];
    assert_eq!(clone_coins(&list), list);

    let addr = Addr::unchecked("owner");
    assert_eq!(addr.as_str(), "owner");
    assert_eq!(addr.to_string(), "owner");
    assert!(addr.same(&Addr::unchecked("owner")));
    assert!(!addr.same(&Addr::unchecked("owners")));
    assert_eq!(addr.clone().into_string(), "owner");
}

#[test]
fn responses_keep_the_order_of_what_is_added() {
    let resp = Response::new()
        .add_attribute("a", "1")
        .add_message(CosmosMsg::Send {
            to_address: "x".to_string(),
            amount: vec![],
        })
        .add_attribute("b", "2")
        .add_message(CosmosMsg::Execute {
            contract_addr: "y".to_string(),
            msg: ExecMsg::Reset { counter: 1 },
            funds: coins(1, ATOM),
        });
    assert_eq!(
        resp,
        Response {
            messages: vec![
                CosmosMsg::Send {
                    to_address: "x".to_string(),
                    amount: vec![],
                },
                CosmosMsg::Execute {
                    contract_addr: "y".to_string(),
                    msg: ExecMsg::Reset { counter: 1 },
                    funds: coins(1, ATOM),
                },
            ],
            attributes: vec![attribute("a", "1"), attribute("b", "2")],
        }
    );
}

#[test]
fn failures_of_the_store_become_failures_of_the_call() {
    assert_eq!(
        ContractError::from(not_found("owner")),
        ContractError::Std(not_found("owner"))
    );
    assert_eq!(StdError::not_found("owner"), not_found("owner"));
    assert_eq!(
        StdError::overflow(OverflowOperation::Mul),
        StdError::Overflow {
            operation: OverflowOperation::Mul
        }
    );
}
