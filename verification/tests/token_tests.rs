use solana_poker::pubkey::Pubkey;
use solana_poker::room::Room;
use solana_poker::token::{transfer_instruction, AccountRole, TokenTransferParams};

fn key(b: u8) -> Pubkey {
    Pubkey::new_from_array([b; 32])
}

#[test]
fn transfer_instruction_layout() {
    let params = TokenTransferParams {
        source: key(1),
        destination: key(2),
        amount: 0x0102_0304_0506_0708,
        authority: key(3),
        token_program: key(4),
    };
    let ix = transfer_instruction(&params);
    assert_eq!(ix.program_id, key(4));
    assert_eq!(ix.data, vec![3, 8, 7, 6, 5, 4, 3, 2, 1]);
    assert_eq!(
        ix.accounts,
        vec![
            AccountRole { key: key(1), is_signer: false, is_writable: true },
            AccountRole { key: key(2), is_signer: false, is_writable: true },
            AccountRole { key: key(3), is_signer: false, is_writable: false },
            AccountRole { key: key(3), is_signer: true, is_writable: false },
        ]
    );
}

#[test]
fn big_blind_transfer_moves_the_big_blind() {
    let room = Room::create(&key(9), 250, 4);
    let params = room.big_blind_transfer(&key(1), &key(2), &key(3), &key(4));
    assert_eq!(params.amount, 250);
    assert_eq!(params.source, key(1));
    assert_eq!(params.destination, key(2));
    let ix = transfer_instruction(&params);
    assert_eq!(ix.data, vec![3, 250, 0, 0, 0, 0, 0, 0, 0]);
}
