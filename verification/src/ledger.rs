//! What the effects of the vault mean on a ledger: who holds what before
//! and after.

use vstd::prelude::*;
use crate::account::Account;
use crate::effect::EffectView;
use crate::pubkey::Pubkey;
use crate::pubkey::SYSTEM_PROGRAM_ID;

verus! {

/// What one address holds on the ledger.
pub struct Holding {
    /// The native balance.
    pub lamports: nat,
    /// The balance of tokens, where the address is a token account.
    pub tokens: nat,
    /// The bytes stored.
    pub data: Seq<u8>,
    /// The program that controls the address.
    pub owner: Pubkey,
}

/// A ledger: what every address holds, and what the ledger asks for
/// setting up a token account.
pub struct Ledger {
    /// What each address holds.
    pub holdings: Map<Pubkey, Holding>,
    /// The balance that the ledger moves from the payer into a token
    /// account when it sets one up.
    pub token_account_rent: nat,
}

/// `data` cut, or filled up with zeros, to `len` bytes.
pub open spec fn resized(data: Seq<u8>, len: nat) -> Seq<u8> {
    Seq::new(
        len,
        |i: int|
            if i < data.len() {
                data[i]
            } else {
                0u8
            },
    )
}

impl Ledger {
    /// What `key` holds.
    pub open spec fn at(self, key: Pubkey) -> Holding {
        self.holdings[key]
    }

    /// The ledger on which `key` holds `holding` and nothing else differs.
    pub open spec fn with(self, key: Pubkey, holding: Holding) -> Ledger {
        Ledger { holdings: self.holdings.insert(key, holding), ..self }
    }

    /// The ledger after `key` has received `lamports`.
    pub open spec fn credit(self, key: Pubkey, lamports: nat) -> Ledger {
        self.with(key, Holding { lamports: self.at(key).lamports + lamports, ..self.at(key) })
    }

    /// The ledger after `key` has given `lamports`, which it has.
    pub open spec fn debit(self, key: Pubkey, lamports: nat) -> Ledger
        recommends
            self.at(key).lamports >= lamports,
    {
        self.with(
            key,
            Holding { lamports: (self.at(key).lamports - lamports) as nat, ..self.at(key) },
        )
    }

    /// Whether the account is as the ledger has it.
    pub open spec fn shows(self, account: Account) -> bool {
        &&& self.at(account.key).lamports == account.lamports
        &&& self.at(account.key).data == account.data@
        &&& self.at(account.key).owner == account.owner
    }

    /// Whether the ledger carries the effect out: the balance that is to
    /// move is there, bytes are written where there are bytes, and a token
    /// account that is to be closed holds no tokens.
    pub open spec fn accepts(self, effect: EffectView) -> bool {
        match effect {
            EffectView::CreateAccount { from, lamports, .. } => self.at(from).lamports >= lamports,
            EffectView::WriteData { account, data } => self.at(account).data.len() == data.len(),
            EffectView::Transfer { from, lamports, .. } => self.at(from).lamports >= lamports,
            EffectView::CreateAssociatedTokenAccount { funding_account, .. } => self.at(
                funding_account,
            ).lamports >= self.token_account_rent,
            EffectView::TransferChecked { from, amount, .. } => self.at(from).tokens >= amount,
            EffectView::CloseTokenAccount { account, .. } => self.at(account).tokens == 0,
            EffectView::WriteByte { account, index, .. } => index < self.at(account).data.len(),
            EffectView::Resize { .. } => true,
            EffectView::Credit { .. } => true,
            EffectView::Close { .. } => true,
        }
    }

    /// The ledger after the effect, which it accepts.
    pub open spec fn apply(self, effect: EffectView) -> Ledger
        recommends
            self.accepts(effect),
    {
        match effect {
            EffectView::CreateAccount { from, to, lamports, space, owner, .. } => {
                let paid = self.debit(from, lamports as nat).credit(to, lamports as nat);
                paid.with(
                    to,
                    Holding {
                        data: Seq::new(space as nat, |i: int| 0u8),
                        owner,
                        ..paid.at(to)
                    },
                )
            },
            EffectView::WriteData { account, data } => self.with(
                account,
                Holding { data, ..self.at(account) },
            ),
            EffectView::Transfer { from, to, lamports } => self.debit(from, lamports as nat).credit(
                to,
                lamports as nat,
            ),
            EffectView::CreateAssociatedTokenAccount { funding_account, account, .. } => self.debit(
                funding_account,
                self.token_account_rent,
            ).credit(account, self.token_account_rent),
            EffectView::TransferChecked { from, to, amount, .. } => {
                let taken = self.with(
                    from,
                    Holding { tokens: (self.at(from).tokens - amount) as nat, ..self.at(from) },
                );
                taken.with(
                    to,
                    Holding { tokens: (taken.at(to).tokens + amount) as nat, ..taken.at(to) },
                )
            },
            EffectView::CloseTokenAccount { account, destination, .. } => {
                let balance = self.at(account).lamports;
                self.with(account, Holding { lamports: 0, ..self.at(account) }).credit(
                    destination,
                    balance,
                )
            },
            EffectView::WriteByte { account, index, value } => self.with(
                account,
                Holding {
                    data: self.at(account).data.update(index as int, value),
                    ..self.at(account)
                },
            ),
            EffectView::Resize { account, len } => self.with(
                account,
                Holding { data: resized(self.at(account).data, len as nat), ..self.at(account) },
            ),
            EffectView::Credit { account, lamports } => self.credit(account, lamports as nat),
            EffectView::Close { account } => self.with(
                account,
                Holding {
                    lamports: 0,
                    data: Seq::empty(),
                    owner: SYSTEM_PROGRAM_ID,
                    ..self.at(account)
                },
            ),
        }
    }

    /// Whether the ledger carries the effects out one after the other.
    pub open spec fn accepts_all(self, effects: Seq<EffectView>) -> bool
        decreases effects.len(),
    {
        effects.len() > 0 ==> self.accepts(effects[0]) && self.apply(effects[0]).accepts_all(
            effects.drop_first(),
        )
    }

    /// The ledger after the effects, one after the other.
    pub open spec fn run(self, effects: Seq<EffectView>) -> Ledger
        decreases effects.len(),
    {
        if effects.len() == 0 {
            self
        } else {
            self.apply(effects[0]).run(effects.drop_first())
        }
    }
}

/// Carrying out one list of effects after another is carrying out the two
/// as one list.
pub proof fn lemma_run_concat(ledger: Ledger, first: Seq<EffectView>, second: Seq<EffectView>)
    ensures
        ledger.run(first + second) == ledger.run(first).run(second),
        ledger.accepts_all(first + second) == (ledger.accepts_all(first) && ledger.run(
            first,
        ).accepts_all(second)),
    decreases first.len(),
{
    if first.len() == 0 {
        assert(first + second =~= second);
    } else {
        assert((first + second).drop_first() =~= first.drop_first() + second);
        lemma_run_concat(ledger.apply(first[0]), first.drop_first(), second);
    }
}

/// What carrying out a list of one, two, three or four effects comes to.
pub proof fn lemma_run_unfold(ledger: Ledger, effects: Seq<EffectView>)
    ensures
        effects.len() == 0 ==> ledger.run(effects) == ledger && ledger.accepts_all(effects),
        effects.len() == 1 ==> ledger.run(effects) == ledger.apply(effects[0])
            && ledger.accepts_all(effects) == ledger.accepts(effects[0]),
        effects.len() == 2 ==> ledger.run(effects) == ledger.apply(effects[0]).apply(effects[1])
            && ledger.accepts_all(effects) == (ledger.accepts(effects[0]) && ledger.apply(
            effects[0],
        ).accepts(effects[1])),
        effects.len() == 3 ==> ledger.run(effects) == ledger.apply(effects[0]).apply(
            effects[1],
        ).apply(effects[2]) && ledger.accepts_all(effects) == (ledger.accepts(effects[0])
            && ledger.apply(effects[0]).accepts(effects[1]) && ledger.apply(effects[0]).apply(
            effects[1],
        ).accepts(effects[2])),
        effects.len() == 4 ==> ledger.run(effects) == ledger.apply(effects[0]).apply(
            effects[1],
        ).apply(effects[2]).apply(effects[3]) && ledger.accepts_all(effects) == (ledger.accepts(
            effects[0],
        ) && ledger.apply(effects[0]).accepts(effects[1]) && ledger.apply(effects[0]).apply(
            effects[1],
        ).accepts(effects[2]) && ledger.apply(effects[0]).apply(effects[1]).apply(
            effects[2],
        ).accepts(effects[3])),
    decreases effects.len(),
{
    if effects.len() > 0 {
        let rest = effects.drop_first();
        lemma_run_unfold(ledger.apply(effects[0]), rest);
        assert(forall|i: int| 0 <= i < rest.len() ==> rest[i] == effects[i + 1]);
    }
}

} // verus!
