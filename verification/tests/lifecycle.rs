use simple_escrow::{
    cancel_escrow, initialize_escrow, withdraw, Address, CancelEscrow, CustodyBinding,
    EscrowError, Holding, InitializeEscrow, Withdraw,
};

fn depositor() -> Address {
    Address::new([0xD0; 32])
}

fn recipient() -> Address {
    Address::new([0x0E; 32])
}

fn stranger() -> Address {
    Address::new([0x55; 32])
}

fn funded(source_balance: u64, amount: u64) -> (Holding, CustodyBinding) {
    let mut ctx = InitializeEscrow {
        depositor: depositor(),
        asset_type: Address::new([0xA5; 32]),
        source: Holding::new(source_balance),
        custody_reference: Address::new([0xC0; 32]),
        binding: None,
        now: 1_234_567,
        access_bump: 7,
    };
    assert_eq!(initialize_escrow(&mut ctx, amount, recipient()), Ok(()));
    (ctx.source, ctx.binding.expect("a record is bound"))
}

#[test]
fn deposit_withdraw_then_cancel_is_refused() {
    let (depositor_holding, binding) = funded(1_000, 1_000);
    assert_eq!(depositor_holding.balance, 0);
    assert_eq!(binding.custody.balance, 1_000);

    let mut release = Withdraw {
        caller: recipient(),
        binding,
        destination: Holding::new(0),
    };
    assert_eq!(withdraw(&mut release), Ok(()));
    assert_eq!(release.destination.balance, 1_000);
    assert_eq!(release.binding.custody.balance, 0);
    assert!(release.binding.record.is_completed);

    let mut refund = CancelEscrow {
        caller: depositor(),
        binding: release.binding,
        destination: depositor_holding,
    };
    let before = refund;
    assert_eq!(cancel_escrow(&mut refund), Err(EscrowError::AlreadyCompleted));
    assert_eq!(refund, before);
    assert_eq!(refund.destination.balance, 0);
    assert_eq!(refund.binding.custody.balance, 0);
}

#[test]
fn after_a_withdrawal_nothing_more_succeeds() {
    let (depositor_holding, binding) = funded(900, 400);
    let mut first = Withdraw {
        caller: recipient(),
        binding,
        destination: Holding::new(10),
    };
    assert_eq!(withdraw(&mut first), Ok(()));
    assert_eq!(first.binding.custody.balance, 0);

    let mut again = Withdraw {
        caller: recipient(),
        binding: first.binding,
        destination: first.destination,
    };
    assert_eq!(withdraw(&mut again), Err(EscrowError::AlreadyCompleted));
    assert_eq!(again.destination.balance, 410);

    let mut refund = CancelEscrow {
        caller: depositor(),
        binding: first.binding,
        destination: depositor_holding,
    };
    assert_eq!(cancel_escrow(&mut refund), Err(EscrowError::AlreadyCompleted));
    assert_eq!(refund.destination.balance, 500);
    assert_eq!(refund.binding, first.binding);
}

#[test]
fn after_a_cancellation_nothing_more_succeeds() {
    let (depositor_holding, binding) = funded(900, 400);
    let mut first = CancelEscrow {
        caller: depositor(),
        binding,
        destination: depositor_holding,
    };
    assert_eq!(cancel_escrow(&mut first), Ok(()));
    assert_eq!(first.binding.custody.balance, 0);
    assert!(first.binding.record.is_completed);

    let mut release = Withdraw {
        caller: recipient(),
        binding: first.binding,
        destination: Holding::new(10),
    };
    assert_eq!(withdraw(&mut release), Err(EscrowError::AlreadyCompleted));
    assert_eq!(release.destination.balance, 10);

    let mut again = CancelEscrow {
        caller: depositor(),
        binding: first.binding,
        destination: first.destination,
    };
    assert_eq!(cancel_escrow(&mut again), Err(EscrowError::AlreadyCompleted));
    assert_eq!(again.destination.balance, 900);
}

fn run_withdraw_then_cancel(
    binding: CustodyBinding,
    withdrawer: Address,
    canceller: Address,
) -> (u32, Holding, Holding, CustodyBinding) {
    let mut successes = 0;
    let mut release = Withdraw {
        caller: withdrawer,
        binding,
        destination: Holding::new(0),
    };
    if withdraw(&mut release).is_ok() {
        successes += 1;
    }
    let mut refund = CancelEscrow {
        caller: canceller,
        binding: release.binding,
        destination: Holding::new(0),
    };
    if cancel_escrow(&mut refund).is_ok() {
        successes += 1;
    }
    (successes, release.destination, refund.destination, refund.binding)
}

fn run_cancel_then_withdraw(
    binding: CustodyBinding,
    withdrawer: Address,
    canceller: Address,
) -> (u32, Holding, Holding, CustodyBinding) {
    let mut successes = 0;
    let mut refund = CancelEscrow {
        caller: canceller,
        binding,
        destination: Holding::new(0),
    };
    if cancel_escrow(&mut refund).is_ok() {
        successes += 1;
    }
    let mut release = Withdraw {
        caller: withdrawer,
        binding: refund.binding,
        destination: Holding::new(0),
    };
    if withdraw(&mut release).is_ok() {
        successes += 1;
    }
    (successes, release.destination, refund.destination, release.binding)
}

#[test]
fn racing_withdraw_and_cancel_move_the_funds_once() {
    let (_, binding) = funded(2_000, 750);

    let (n, to_recipient, to_depositor, end) =
        run_withdraw_then_cancel(binding, recipient(), depositor());
    assert_eq!(n, 1);
    assert_eq!(to_recipient.balance, 750);
    assert_eq!(to_depositor.balance, 0);
    assert_eq!(end.custody.balance, 0);
    assert!(end.record.is_completed);

    let (n, to_recipient, to_depositor, end) =
        run_cancel_then_withdraw(binding, recipient(), depositor());
    assert_eq!(n, 1);
    assert_eq!(to_recipient.balance, 0);
    assert_eq!(to_depositor.balance, 750);
    assert_eq!(end.custody.balance, 0);
    assert!(end.record.is_completed);
}

#[test]
fn racing_with_one_unauthorized_caller_moves_the_funds_once() {
    let (_, binding) = funded(2_000, 750);

    let (n, to_recipient, to_depositor, end) =
        run_withdraw_then_cancel(binding, stranger(), depositor());
    assert_eq!(n, 1);
    assert_eq!(to_recipient.balance, 0);
    assert_eq!(to_depositor.balance, 750);
    assert_eq!(end.custody.balance, 0);

    let (n, to_recipient, to_depositor, end) =
        run_cancel_then_withdraw(binding, stranger(), depositor());
    assert_eq!(n, 1);
    assert_eq!(to_recipient.balance, 0);
    assert_eq!(to_depositor.balance, 750);
    assert_eq!(end.custody.balance, 0);

    let (n, to_recipient, to_depositor, end) =
        run_withdraw_then_cancel(binding, recipient(), stranger());
    assert_eq!(n, 1);
    assert_eq!(to_recipient.balance, 750);
    assert_eq!(to_depositor.balance, 0);
    assert_eq!(end.custody.balance, 0);

    let (n, to_recipient, to_depositor, end) =
        run_cancel_then_withdraw(binding, recipient(), stranger());
    assert_eq!(n, 1);
    assert_eq!(to_recipient.balance, 750);
    assert_eq!(to_depositor.balance, 0);
    assert_eq!(end.custody.balance, 0);
}

#[test]
fn racing_strangers_move_nothing() {
    let (_, binding) = funded(2_000, 750);
    let (n, to_recipient, to_depositor, end) =
        run_withdraw_then_cancel(binding, stranger(), stranger());
    assert_eq!(n, 0);
    assert_eq!(to_recipient.balance, 0);
    assert_eq!(to_depositor.balance, 0);
    assert_eq!(end, binding);
}

#[test]
fn cancelling_gives_the_depositor_everything_back() {
    for (balance, amount) in [(1_000u64, 1u64), (1_000, 999), (1_000, 1_000), (u64::MAX, u64::MAX)] {
        let (depositor_holding, binding) = funded(balance, amount);
        assert_eq!(depositor_holding.balance, balance - amount);
        let mut refund = CancelEscrow {
            caller: depositor(),
            binding,
            destination: depositor_holding,
        };
        assert_eq!(cancel_escrow(&mut refund), Ok(()));
        assert_eq!(refund.destination.balance, balance);
        assert_eq!(refund.binding.custody.balance, 0);
    }
}

#[test]
fn a_refused_withdrawal_does_not_block_the_recipient() {
    let (_, binding) = funded(500, 500);
    let mut attempt = Withdraw {
        caller: stranger(),
        binding,
        destination: Holding::new(0),
    };
    assert_eq!(withdraw(&mut attempt), Err(EscrowError::Unauthorized));
    let mut release = Withdraw {
        caller: recipient(),
        binding: attempt.binding,
        destination: Holding::new(0),
    };
    assert_eq!(withdraw(&mut release), Ok(()));
    assert_eq!(release.destination.balance, 500);
}
