//! The display-unit conversion round trip, the router's transitions,
//! and the command labels.

use scilla::amount::{lamports_to_sol, sol_to_lamports, SolAmount, LAMPORTS_PER_SOL};
use scilla::commands::account::AccountCommand;
use scilla::commands::config::ConfigCommand;
use scilla::commands::stake::StakeCommand;
use scilla::commands::vote::VoteCommand;
use scilla::commands::{
    main_menu_transition, outcome_transition, Command, CommandExec, CommandGroup, RouterState,
};
use scilla::keys::Address;
use scilla::ledger::{Commitment, Session};

#[test]
fn one_unit_is_one_billion_base_units() {
    let amount = lamports_to_sol(1_000_000_000);
    assert_eq!(amount, SolAmount { sol: 1, nanos: 0 });
    assert_eq!(sol_to_lamports(amount), Some(1_000_000_000));
}

#[test]
fn amount_round_trip_is_exact() {
    for lamports in [0u64, 1, 999_999_999, 1_000_000_000, 1_500_000_000, u64::MAX] {
        let amount = lamports_to_sol(lamports);
        assert!(amount.nanos < 1_000_000_000);
        assert_eq!(sol_to_lamports(amount), Some(lamports), "lamports {lamports}");
    }
}

#[test]
fn amounts_beyond_the_lamport_range_are_refused() {
    // u64::MAX lamports is 18_446_744_073.709551615 units; one more
    // whole unit does not fit.
    assert_eq!(sol_to_lamports(SolAmount { sol: 18_446_744_074, nanos: 0 }), None);
    assert_eq!(
        sol_to_lamports(SolAmount { sol: 18_446_744_073, nanos: 709_551_615 }),
        Some(u64::MAX)
    );
    assert_eq!(sol_to_lamports(SolAmount { sol: 18_446_744_073, nanos: 709_551_616 }), None);
    assert_eq!(sol_to_lamports(SolAmount { sol: 2, nanos: 500_000_000 }), Some(2_500_000_000));
    assert_eq!(LAMPORTS_PER_SOL, 1_000_000_000);
}

#[test]
fn router_moves_between_menus_as_selected() {
    // A group selection opens its menu; exit terminates.
    assert_eq!(main_menu_transition(CommandGroup::Stake), RouterState::GroupMenu(CommandGroup::Stake));
    assert_eq!(main_menu_transition(CommandGroup::Account), RouterState::GroupMenu(CommandGroup::Account));
    assert_eq!(main_menu_transition(CommandGroup::Exit), RouterState::Terminated);

    // A completed operation keeps the current menu.
    let in_stake = RouterState::GroupMenu(CommandGroup::Stake);
    assert_eq!(outcome_transition(in_stake, &CommandExec::Process(())), in_stake);
    // Going back returns to the main menu.
    assert_eq!(outcome_transition::<()>(in_stake, &CommandExec::GoBack), RouterState::MainMenu);
    // Exit terminates.
    assert_eq!(outcome_transition::<()>(in_stake, &CommandExec::Exit), RouterState::Terminated);
    // Terminated is absorbing.
    assert_eq!(
        outcome_transition(RouterState::Terminated, &CommandExec::Process(())),
        RouterState::Terminated
    );
}

#[test]
fn every_command_sits_under_its_group() {
    assert_eq!(Command::Stake(StakeCommand::Deactivate).group(), CommandGroup::Stake);
    assert_eq!(Command::Account(AccountCommand::Transfer).group(), CommandGroup::Account);
    assert_eq!(Command::Vote(VoteCommand::AuthorizeVoter).group(), CommandGroup::Vote);
    assert_eq!(Command::ScillaConfig(ConfigCommand::Show).group(), CommandGroup::ScillaConfig);
    assert_eq!(Command::Exit.group(), CommandGroup::Exit);
}

#[test]
fn spinner_messages_match_the_operation() {
    assert_eq!(AccountCommand::Transfer.spinner_msg(), "Sending SOL…");
    assert_eq!(AccountCommand::Airdrop.spinner_msg(), "Requesting SOL on devnet/testnet…");
    assert_eq!(StakeCommand::Deactivate.spinner_msg(), "Deactivating stake (cooldown starting)…");
    assert_eq!(StakeCommand::Withdraw.spinner_msg(), "Withdrawing SOL from deactivated stake…");
    assert_eq!(VoteCommand::CreateVoteAccount.spinner_msg(), "Creating vote account…");
    assert_eq!(ConfigCommand::Show.spinner_msg(), "Displaying current Scilla configuration…");
}

#[test]
fn menu_labels_match_the_hierarchy() {
    assert_eq!(CommandGroup::Account.menu_label(), "Account");
    assert_eq!(CommandGroup::ScillaConfig.menu_label(), "ScillaConfig");
    assert_eq!(AccountCommand::NonceAccount.menu_label(), "View nonce account");
    assert_eq!(StakeCommand::GoBack.menu_label(), "Go Back");
    assert_eq!(VoteCommand::WithdrawFromVoteAccount.menu_label(), "Withdraw From Vote Account");
    assert_eq!(ConfigCommand::Generate.menu_label(), "Generate ScillaConfig");
}

#[test]
fn session_reload_replaces_the_whole_context() {
    let mut session = Session {
        address: Address { w0: 1, w1: 2, w2: 3, w3: 4 },
        rpc_url: String::from("https://api.devnet.solana.com"),
        commitment: Commitment::Confirmed,
    };
    let fresh = Session {
        address: Address { w0: 5, w1: 6, w2: 7, w3: 8 },
        rpc_url: String::from("https://api.mainnet-beta.solana.com"),
        commitment: Commitment::Finalized,
    };
    session.reload(fresh.clone());
    assert_eq!(session.address, fresh.address);
    assert_eq!(session.rpc_url, fresh.rpc_url);
    assert_eq!(session.commitment, fresh.commitment);
}
