//! Event topic names stay distinct.

#[test]
fn new_event_topics_do_not_collide() {
    let existing = [
        "admin",
        "cancelled",
        "created",
        "ctrct_cmp",
        "dispute",
        "evidence",
        "fee",
        "finalized",
        "init",
        "mlstn_rls",
        "opened",
        "refunded",
        "resolved",
        "unpaused",
        "withdraw",
        "pause",
        "mlstn_idx",
        "settlement_token_bound",
        "arbiter_cfg",
        "limits",
        "rep_cfg",
    ];
    let new_topics = ["mlstn_app", "rep_issd"];
    for nt in new_topics {
        assert!(
            !existing.contains(&nt),
            "New topic '{}' collides with an existing one",
            nt
        );
    }
}
