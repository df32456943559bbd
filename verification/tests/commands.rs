use chainx_cli::rpc::{Arg, Call, HashOrHeight, Method, RpcCommand};
use chainx_cli::xassets::{transfer_report, AssetsCall, Storage, XAssets};

type Query = RpcCommand<String, String>;
type Argument = Arg<String, String>;

fn hash(s: &str) -> String {
    s.to_string()
}

fn call(method: Method, args: Vec<Argument>) -> Call<String, String> {
    Call { method, args }
}

#[test]
fn a_block_is_asked_for_by_height_or_by_hash() {
    let by_height: Query = RpcCommand::Block { hash_or_height: Some(HashOrHeight::Height(42)) };
    assert_eq!(
        by_height.dispatch(),
        call(Method::BlockByNumber, vec![Arg::OptHeight(Some(42))])
    );
    let by_hash: Query = RpcCommand::Block { hash_or_height: Some(HashOrHeight::Hash(hash("0xab"))) };
    assert_eq!(
        by_hash.dispatch(),
        call(Method::BlockByHash, vec![Arg::OptHash(Some(hash("0xab")))])
    );
    let latest: Query = RpcCommand::Block { hash_or_height: None };
    assert_eq!(latest.dispatch(), call(Method::BlockByHash, vec![Arg::OptHash(None)]));
}

#[test]
fn arguments_are_passed_in_the_order_of_the_fields() {
    let assets: Query = RpcCommand::Assets { index: 2, size: 7, hash: None };
    assert_eq!(
        assets.dispatch(),
        call(Method::Assets, vec![Arg::U32(2), Arg::U32(7), Arg::OptHash(None)])
    );
    let verify: Query = RpcCommand::VerifyAddr {
        token: "PCX".into(),
        addr: "a1".into(),
        memo: "m1".into(),
        hash: None,
    };
    assert_eq!(
        verify.dispatch(),
        call(
            Method::VerifyAddr,
            vec![
                Arg::Text("PCX".into()),
                Arg::Text("a1".into()),
                Arg::Text("m1".into()),
                Arg::OptHash(None),
            ]
        )
    );
    let quotations: Query = RpcCommand::Quotations { id: 3, piece: 9, hash: None };
    assert_eq!(
        quotations.dispatch(),
        call(Method::Quotations, vec![Arg::U32(3), Arg::U32(9), Arg::OptHash(None)])
    );
    let list: Query =
        RpcCommand::WithdrawList { chain: hash("Bitcoin"), index: 0, size: 5, hash: Some(hash("0x01")) };
    assert_eq!(
        list.dispatch(),
        call(
            Method::WithdrawList,
            vec![
                Arg::Chain(hash("Bitcoin")),
                Arg::U32(0),
                Arg::U32(5),
                Arg::OptHash(Some(hash("0x01"))),
            ]
        )
    );
    let fee: Query = RpcCommand::CallFee { call: "0x00".into(), tx_len: 140, hash: None };
    assert_eq!(
        fee.dispatch(),
        call(Method::CallFee, vec![Arg::Text("0x00".into()), Arg::U64(140), Arg::OptHash(None)])
    );
    let trustees: Query = RpcCommand::MockBtcNewTrustees {
        candidates: vec![hash("0x0a"), hash("0x0b")],
        hash: None,
    };
    assert_eq!(
        trustees.dispatch(),
        call(
            Method::MockBtcNewTrustees,
            vec![Arg::Hashes(vec![hash("0x0a"), hash("0x0b")]), Arg::OptHash(None)]
        )
    );
    let addr: Query =
        RpcCommand::AddrByAccount { who: hash("0x0c"), chain: hash("Bitcoin"), hash: None };
    assert_eq!(
        addr.dispatch(),
        call(
            Method::AddrByAccount,
            vec![Arg::Hash(hash("0x0c")), Arg::Chain(hash("Bitcoin")), Arg::OptHash(None)]
        )
    );
}

#[test]
fn three_queries_call_a_method_of_another_name() {
    let finalized: Query = RpcCommand::FinalizedHeader;
    assert_eq!(finalized.dispatch(), call(Method::FinalizedHead, vec![]));
    let session: Query =
        RpcCommand::TrusteeSession { chain: hash("Bitcoin"), era: Some(3), hash: None };
    assert_eq!(
        session.dispatch(),
        call(
            Method::TrusteeSessionInfo,
            vec![Arg::Chain(hash("Bitcoin")), Arg::OptU32(Some(3)), Arg::OptHash(None)]
        )
    );
    let info: Query = RpcCommand::TrusteeInfo { who: hash("0x0d"), hash: Some(hash("0x0e")) };
    assert_eq!(
        info.dispatch(),
        call(
            Method::TrusteeByAccount,
            vec![Arg::Hash(hash("0x0d")), Arg::OptHash(Some(hash("0x0e")))]
        )
    );
}

#[test]
fn every_other_query_calls_its_own_method() {
    let queries: Vec<(Query, Method, usize)> = vec![
        (RpcCommand::Header { hash: None }, Method::Header, 1),
        (RpcCommand::SystemName, Method::SystemName, 0),
        (RpcCommand::SystemVersion, Method::SystemVersion, 0),
        (RpcCommand::SystemChain, Method::SystemChain, 0),
        (RpcCommand::SystemProperties, Method::SystemProperties, 0),
        (RpcCommand::SystemHealth, Method::SystemHealth, 0),
        (RpcCommand::SystemPeers, Method::SystemPeers, 0),
        (RpcCommand::SystemNetworkState, Method::SystemNetworkState, 0),
        (RpcCommand::NextRenominate { who: hash("w"), hash: None }, Method::NextRenominate, 2),
        (RpcCommand::Asset { who: hash("w"), index: 0, size: 5, hash: None }, Method::Asset, 4),
        (RpcCommand::WithdrawLimit { token: "PCX".into(), hash: None }, Method::WithdrawLimit, 2),
        (RpcCommand::DepositLimit { token: "PCX".into(), hash: None }, Method::DepositLimit, 2),
        (
            RpcCommand::DepositList { chain: hash("Bitcoin"), index: 0, size: 5, hash: None },
            Method::DepositList,
            4,
        ),
        (RpcCommand::NominationRecords { who: hash("w"), hash: None }, Method::NominationRecords, 2),
        (
            RpcCommand::PseduNominationRecords { who: hash("w"), hash: None },
            Method::PseduNominationRecords,
            2,
        ),
        (RpcCommand::Intention { who: hash("w"), hash: None }, Method::Intention, 2),
        (RpcCommand::Intentions { hash: None }, Method::Intentions, 1),
        (RpcCommand::PseduIntentions { hash: None }, Method::PseduIntentions, 1),
        (RpcCommand::TradingPairs { hash: None }, Method::TradingPairs, 1),
        (RpcCommand::Orders { who: hash("w"), index: 0, size: 5, hash: None }, Method::Orders, 4),
        (RpcCommand::WithdrawTx { chain: hash("Bitcoin"), hash: None }, Method::WithdrawTx, 2),
        (RpcCommand::ParticularAccounts { hash: None }, Method::ParticularAccounts, 1),
    ];
    for (query, method, count) in queries {
        let made = query.dispatch();
        assert_eq!(made.method, method);
        assert_eq!(made.args.len(), count);
        assert_eq!(made.args.last().cloned().unwrap_or(Arg::OptHash(None)), Arg::OptHash(None));
    }
    let header: Query = RpcCommand::Header { hash: Some(hash("0x0f")) };
    assert_eq!(header.dispatch(), call(Method::Header, vec![Arg::OptHash(Some(hash("0x0f")))]));
    let height: Query = RpcCommand::BlockHash { height: Some(7) };
    assert_eq!(height.dispatch(), call(Method::BlockHash, vec![Arg::OptHeight(Some(7))]));
}

#[test]
fn an_asset_command_makes_its_call() {
    let transfer: XAssets<String, u32> =
        XAssets::Transfer { dest: hash("5Grw"), asset_id: 1, value: 1000 };
    assert_eq!(
        transfer.call(),
        AssetsCall::TransferAndWatch { dest: hash("5Grw"), asset_id: 1, value: 1000 }
    );
    let balance: XAssets<String, u32> =
        XAssets::Storage(Storage::AssetBalance { account_id: hash("5Grw"), asset_id: 1 });
    assert_eq!(balance.call(), AssetsCall::AssetBalance { account_id: hash("5Grw"), asset_id: 1 });
    let total: XAssets<String, u32> = XAssets::Storage(Storage::TotalAssetBalance { asset_id: 2 });
    assert_eq!(total.call(), AssetsCall::TotalAssetBalance { asset_id: 2 });
}

#[test]
fn a_transfer_reports_its_amount() {
    assert_eq!(transfer_report(Some(0)), "XAssets transfer success: value: 0");
    assert_eq!(transfer_report(Some(1000)), "XAssets transfer success: value: 1000");
    assert_eq!(
        transfer_report(Some(u128::MAX)),
        "XAssets transfer success: value: 340282366920938463463374607431768211455"
    );
    assert_eq!(
        transfer_report(Some(u128::MAX)),
        format!("XAssets transfer success: value: {:?}", u128::MAX)
    );
    assert_eq!(transfer_report(None), "Failed to find XAssets::Transfer Event");
}
