//! The whole token held in memory: its properties, roles, balances,
//! allowances, minters and blacklist, with one method per operation of the
//! contract. Each method reads what the operation needs, lets the rules of
//! [`crate::ledger`], [`crate::admin`] and [`crate::blacklist`] decide, and
//! writes back what they return.
use vstd::prelude::*;

use crate::access::{caller_of, get_immediate_caller_address, only_blacklister, role_check, CallerFrame};
use crate::address::{views, Address};
use crate::admin;
use crate::amount::{amount_bound, Amount};
use crate::blacklist::Blacklist;
use crate::dictionary::Dictionary;
use crate::error::{refused_with, CsprUSDError};
use crate::events::{
    Blacklisted, BlacklisterChanged, Burn, DecreaseAllowance, IncreaseAllowance, MasterMinterChanged,
    Mint, MinterConfigured, MinterRemoved, NewPauser, OwnershipTransferred, Pause, SetAllowance,
    Transfer, TransferFrom, UnBlacklisted, Unpause,
};
use crate::ledger;

verus! {

/// The state of the token. Balances, mint allowances and the minter flags are
/// keyed by the one-address path of their holder, allowances by the path
/// owner, spender.
pub struct TokenModel {
    pub paused: bool,
    pub owner: Seq<u8>,
    pub pauser: Seq<u8>,
    pub master_minter: Seq<u8>,
    /// The blacklister, by the address of its account.
    pub blacklister: Seq<u8>,
    pub total_supply: nat,
    pub balances: Map<Seq<Seq<u8>>, nat>,
    pub allowances: Map<Seq<Seq<u8>>, nat>,
    pub minters: Map<Seq<Seq<u8>>, bool>,
    pub minter_allowed: Map<Seq<Seq<u8>>, nat>,
    /// The listed addresses, in the order of their positions.
    pub blacklist: Seq<Seq<u8>>,
}

/// The amount stored under `k`, with no entry counting as zero.
pub open spec fn amount_or_zero(m: Map<Seq<Seq<u8>>, nat>, k: Seq<Seq<u8>>) -> nat {
    if m.contains_key(k) {
        m[k]
    } else {
        0
    }
}

impl TokenModel {
    pub open spec fn balance(self, a: Seq<u8>) -> nat {
        amount_or_zero(self.balances, seq![a])
    }

    /// What `owner` allows `spender` to spend of its tokens.
    pub open spec fn allowance(self, owner: Seq<u8>, spender: Seq<u8>) -> nat {
        amount_or_zero(self.allowances, seq![owner, spender])
    }

    pub open spec fn is_minter(self, a: Seq<u8>) -> bool {
        self.minters.contains_key(seq![a]) && self.minters[seq![a]]
    }

    pub open spec fn minter_allowance(self, a: Seq<u8>) -> nat {
        amount_or_zero(self.minter_allowed, seq![a])
    }

    pub open spec fn is_blacklisted(self, a: Seq<u8>) -> bool {
        self.blacklist.contains(a)
    }

    /// The caller, where it can be told; what it stands for otherwise is of
    /// no consequence, since every operation that needs it is then refused.
    pub open spec fn caller(stack: Seq<CallerFrame>) -> Seq<u8> {
        caller_of(stack)->Some_0
    }
}

/// The value of each stored amount.
pub open spec fn amounts(m: Map<Seq<Seq<u8>>, Amount>) -> Map<Seq<Seq<u8>>, nat> {
    m.map_values(|a: Amount| a.value())
}

proof fn lemma_amounts_insert(m: Map<Seq<Seq<u8>>, Amount>, k: Seq<Seq<u8>>, v: Amount)
    ensures
        amounts(m.insert(k, v)) == amounts(m).insert(k, v.value()),
{
    assert(amounts(m.insert(k, v)) =~= amounts(m).insert(k, v.value()));
}

/// The sum of the values of a sequence of amounts.
pub open spec fn sum_of(s: Seq<Amount>) -> nat
    decreases s.len(),
{
    if s.len() == 0 {
        0
    } else {
        sum_of(s.drop_last()) + s.last().value()
    }
}

proof fn lemma_sum_of_update(s: Seq<Amount>, i: int, v: Amount)
    requires
        0 <= i < s.len(),
    ensures
        sum_of(s.update(i, v)) + s[i].value() == sum_of(s) + v.value(),
    decreases s.len(),
{
    let t = s.update(i, v);
    if i == s.len() - 1 {
        assert(t.drop_last() =~= s.drop_last());
    } else {
        assert(t.drop_last() =~= s.drop_last().update(i, v));
        lemma_sum_of_update(s.drop_last(), i, v);
    }
}

proof fn lemma_sum_of_push(s: Seq<Amount>, v: Amount)
    ensures
        sum_of(s.push(v)) == sum_of(s) + v.value(),
{
    assert(s.push(v).drop_last() =~= s);
}

proof fn lemma_sum_of_bounds_each(s: Seq<Amount>, i: int)
    requires
        0 <= i < s.len(),
    ensures
        s[i].value() <= sum_of(s),
    decreases s.len(),
{
    if i < s.len() - 1 {
        lemma_sum_of_bounds_each(s.drop_last(), i);
    }
}

proof fn lemma_sum_of_bounds_two(s: Seq<Amount>, i: int, j: int)
    requires
        0 <= i < s.len(),
        0 <= j < s.len(),
        i != j,
    ensures
        s[i].value() + s[j].value() <= sum_of(s),
    decreases s.len(),
{
    let n = s.len() - 1;
    if i == n {
        lemma_sum_of_bounds_each(s.drop_last(), j);
    } else if j == n {
        lemma_sum_of_bounds_each(s.drop_last(), i);
    } else {
        lemma_sum_of_bounds_two(s.drop_last(), i, j);
    }
}

fn path_of(a: &Address) -> (r: Vec<Address>)
    ensures
        views(r@) == seq![a@],
{
    let mut r: Vec<Address> = Vec::new();
    r.push(a.duplicate());
    assert(views(r@) =~= seq![a@]);
    r
}

fn path_of_pair(a: &Address, b: &Address) -> (r: Vec<Address>)
    ensures
        views(r@) == seq![a@, b@],
{
    let mut r: Vec<Address> = Vec::new();
    r.push(a.duplicate());
    r.push(b.duplicate());
    assert(views(r@) =~= seq![a@, b@]);
    r
}

/// The csprUSD token.
pub struct Token {
    name: String,
    symbol: String,
    currency: String,
    decimals: u8,
    paused: bool,
    owner: Address,
    pauser: Address,
    master_minter: Address,
    blacklister: Address,
    total_supply: Amount,
    balances: Dictionary<Amount>,
    allowances: Dictionary<Amount>,
    minters: Dictionary<bool>,
    minter_allowed: Dictionary<Amount>,
    blacklist: Blacklist,
}

impl View for Token {
    type V = TokenModel;

    closed spec fn view(&self) -> TokenModel {
        TokenModel {
            paused: self.paused,
            owner: self.owner@,
            pauser: self.pauser@,
            master_minter: self.master_minter@,
            blacklister: self.blacklister@,
            total_supply: self.total_supply.value(),
            balances: amounts(self.balances.view()),
            allowances: amounts(self.allowances.view()),
            minters: self.minters.view(),
            minter_allowed: amounts(self.minter_allowed.view()),
            blacklist: self.blacklist@,
        }
    }
}

impl Token {
    spec fn storage_wf(&self) -> bool {
        &&& self.balances.wf()
        &&& self.allowances.wf()
        &&& self.minters.wf()
        &&& self.minter_allowed.wf()
        &&& self.blacklist.wf()
    }

    /// The sum of every balance.
    pub closed spec fn balance_total(&self) -> nat {
        sum_of(self.balances.values())
    }

    /// Storage keeps its invariants, and the total supply is the sum of
    /// every balance.
    pub closed spec fn wf(&self) -> bool {
        &&& self.storage_wf()
        &&& self.total_supply.value() == self.balance_total()
    }

    /// Every token in existence is held by someone: the total supply is the
    /// sum of all balances.
    pub proof fn lemma_supply_is_sum_of_balances(&self)
        requires
            self.wf(),
        ensures
            self@.total_supply == self.balance_total(),
    {
    }

    /// Two different holders together hold no more than the total supply.
    pub proof fn lemma_two_balances_within_supply(&self, a: Seq<u8>, b: Seq<u8>)
        requires
            self.wf(),
            a != b,
        ensures
            self@.balance(a) + self@.balance(b) <= self@.total_supply,
    {
        let ka = seq![a];
        let kb = seq![b];
        assert(ka[0] == a && kb[0] == b);
        let has_a = self.balances.view().contains_key(ka);
        let has_b = self.balances.view().contains_key(kb);
        if has_a && has_b {
            self.balances.lemma_slot_of(ka);
            self.balances.lemma_slot_of(kb);
            self.balances.lemma_slots_distinct(ka, kb);
            lemma_sum_of_bounds_two(self.balances.values(), self.balances.slot_of(ka), self.balances.slot_of(kb));
        } else {
            self.lemma_balance_within_supply(a);
            self.lemma_balance_within_supply(b);
        }
    }

    /// No one holds more than the total supply.
    pub proof fn lemma_balance_within_supply(&self, a: Seq<u8>)
        requires
            self.wf(),
        ensures
            self@.balance(a) <= self@.total_supply,
    {
        let k = seq![a];
        if self.balances.view().contains_key(k) {
            self.balances.lemma_slot_of(k);
            lemma_sum_of_bounds_each(self.balances.values(), self.balances.slot_of(k));
        }
    }

    pub closed spec fn spec_name(&self) -> Seq<char> {
        self.name@
    }

    pub closed spec fn spec_symbol(&self) -> Seq<char> {
        self.symbol@
    }

    pub closed spec fn spec_currency(&self) -> Seq<char> {
        self.currency@
    }

    pub closed spec fn spec_decimals(&self) -> u8 {
        self.decimals
    }

    /// Name, symbol, currency and decimals, which no operation changes.
    pub closed spec fn properties(&self) -> (Seq<char>, Seq<char>, Seq<char>, u8) {
        (self.name@, self.symbol@, self.currency@, self.decimals)
    }

    /// A token as installed and initialised: unpaused, with no tokens, and
    /// with the master minter as its one minter, with no mint allowance.
    pub fn install(
        name: String,
        symbol: String,
        currency: String,
        decimals: u8,
        master_minter: Address,
        pauser: Address,
        blacklister: Address,
        owner: Address,
    ) -> (r: Token)
        ensures
            r.wf(),
            r.spec_name() == name@,
            r.spec_symbol() == symbol@,
            r.spec_currency() == currency@,
            r.spec_decimals() == decimals,
            r@ == (TokenModel {
                paused: false,
                owner: owner@,
                pauser: pauser@,
                master_minter: master_minter@,
                blacklister: blacklister@,
                total_supply: 0,
                balances: Map::empty(),
                allowances: Map::empty(),
                minters: Map::empty().insert(seq![master_minter@], true),
                minter_allowed: Map::empty(),
                blacklist: Seq::empty(),
            }),
    {
        let mut minters: Dictionary<bool> = Dictionary::new();
        minters.set(&path_of(&master_minter), true);
        let balances: Dictionary<Amount> = Dictionary::new();
        let allowances: Dictionary<Amount> = Dictionary::new();
        let minter_allowed: Dictionary<Amount> = Dictionary::new();
        proof {
            assert(amounts(balances.view()) =~= Map::empty());
            assert(amounts(allowances.view()) =~= Map::empty());
            assert(amounts(minter_allowed.view()) =~= Map::empty());
            assert(sum_of(balances.values()) == 0);
        }
        Token {
            name,
            symbol,
            currency,
            decimals,
            paused: false,
            owner,
            pauser,
            master_minter,
            blacklister,
            total_supply: Amount::zero(),
            balances,
            allowances,
            minters,
            minter_allowed,
            blacklist: Blacklist::new(),
        }
    }

    pub fn name(&self) -> (r: &String)
        ensures
            r@ == self.spec_name(),
    {
        &self.name
    }

    pub fn symbol(&self) -> (r: &String)
        ensures
            r@ == self.spec_symbol(),
    {
        &self.symbol
    }

    pub fn currency(&self) -> (r: &String)
        ensures
            r@ == self.spec_currency(),
    {
        &self.currency
    }

    pub fn decimals(&self) -> (r: u8)
        ensures
            r == self.spec_decimals(),
    {
        self.decimals
    }

    pub fn is_paused(&self) -> (r: bool)
        ensures
            r == self@.paused,
    {
        self.paused
    }

    pub fn owner(&self) -> (r: &Address)
        ensures
            r@ == self@.owner,
    {
        &self.owner
    }

    pub fn pauser(&self) -> (r: &Address)
        ensures
            r@ == self@.pauser,
    {
        &self.pauser
    }

    pub fn master_minter(&self) -> (r: &Address)
        ensures
            r@ == self@.master_minter,
    {
        &self.master_minter
    }

    pub fn blacklister(&self) -> (r: &Address)
        ensures
            r@ == self@.blacklister,
    {
        &self.blacklister
    }

    pub fn total_supply(&self) -> (r: Amount)
        ensures
            r.value() == self@.total_supply,
    {
        self.total_supply
    }

    fn amount_at(d: &Dictionary<Amount>, key: &Vec<Address>) -> (r: Amount)
        requires
            d.wf(),
        ensures
            r.value() == amount_or_zero(amounts(d.view()), views(key@)),
    {
        match d.get(key) {
            Some(a) => a,
            None => Amount::zero(),
        }
    }

    pub fn balance_of(&self, a: &Address) -> (r: Amount)
        requires
            self.wf(),
        ensures
            r.value() == self@.balance(a@),
    {
        Token::amount_at(&self.balances, &path_of(a))
    }

    pub fn allowance(&self, owner: &Address, spender: &Address) -> (r: Amount)
        requires
            self.wf(),
        ensures
            r.value() == self@.allowance(owner@, spender@),
    {
        Token::amount_at(&self.allowances, &path_of_pair(owner, spender))
    }

    pub fn minter_allowance(&self, minter: &Address) -> (r: Amount)
        requires
            self.wf(),
        ensures
            r.value() == self@.minter_allowance(minter@),
    {
        Token::amount_at(&self.minter_allowed, &path_of(minter))
    }

    pub fn is_minter(&self, a: &Address) -> (r: bool)
        requires
            self.wf(),
        ensures
            r == self@.is_minter(a@),
    {
        match self.minters.get(&path_of(a)) {
            Some(b) => b,
            None => false,
        }
    }

    pub fn is_blacklisted(&self, a: &Address) -> (r: bool)
        requires
            self.wf(),
        ensures
            r == self@.is_blacklisted(a@),
    {
        self.blacklist.is_blacklisted(a)
    }

    /// The listed addresses, in the order of their positions.
    pub fn blacklisted_keys(&self) -> (r: Vec<Address>)
        requires
            self.wf(),
        ensures
            views(r@) == self@.blacklist,
    {
        self.blacklist.keys()
    }

    fn set_balance(&mut self, a: &Address, v: Amount)
        requires
            old(self).storage_wf(),
        ensures
            final(self).storage_wf(),
            final(self).balance_total() + old(self)@.balance(a@) == old(self).balance_total() + v.value(),
            final(self).total_supply == old(self).total_supply,
            final(self)@ == (TokenModel {
                balances: old(self)@.balances.insert(seq![a@], v.value()),
                ..old(self)@
            }),
            final(self).properties() == old(self).properties(),
    {
        let ghost m = self.balances.view();
        let ghost d = self.balances;
        self.balances.set(&path_of(a), v);
        proof {
            lemma_amounts_insert(m, seq![a@], v);
            let k = seq![a@];
            if m.contains_key(k) {
                d.lemma_slot_of(k);
                lemma_sum_of_update(d.values(), d.slot_of(k), v);
            } else {
                lemma_sum_of_push(d.values(), v);
            }
        }
    }
    fn set_allowance(&mut self, owner: &Address, spender: &Address, v: Amount)
        requires
            old(self).storage_wf(),
        ensures
            final(self).storage_wf(),
            final(self).balance_total() == old(self).balance_total(),
            final(self).total_supply == old(self).total_supply,
            final(self)@ == (TokenModel {
                allowances: old(self)@.allowances.insert(seq![owner@, spender@], v.value()),
                ..old(self)@
            }),
            final(self).properties() == old(self).properties(),
    {
        let ghost m = self.allowances.view();
        self.allowances.set(&path_of_pair(owner, spender), v);
        proof {
            lemma_amounts_insert(m, seq![owner@, spender@], v);
        }
    }

    fn set_minter_allowed(&mut self, a: &Address, v: Amount)
        requires
            old(self).storage_wf(),
        ensures
            final(self).storage_wf(),
            final(self).balance_total() == old(self).balance_total(),
            final(self).total_supply == old(self).total_supply,
            final(self)@ == (TokenModel {
                minter_allowed: old(self)@.minter_allowed.insert(seq![a@], v.value()),
                ..old(self)@
            }),
            final(self).properties() == old(self).properties(),
    {
        let ghost m = self.minter_allowed.view();
        self.minter_allowed.set(&path_of(a), v);
        proof {
            lemma_amounts_insert(m, seq![a@], v);
        }
    }

    /// The blacklist standing and balance of the caller, where it can be told.
    fn caller_standing(&self, stack: &Vec<CallerFrame>) -> (r: (bool, Amount))
        requires
            self.wf(),
        ensures
            caller_of(stack@) is Some ==> r.0 == self@.is_blacklisted(TokenModel::caller(stack@))
                && r.1.value() == self@.balance(TokenModel::caller(stack@)),
    {
        match get_immediate_caller_address(stack) {
            Ok(c) => (self.is_blacklisted(&c), self.balance_of(&c)),
            Err(_) => (false, Amount::zero()),
        }
    }

    /// The caller sends `amount` of its tokens to `recipient`.
    pub fn transfer(&mut self, stack: &Vec<CallerFrame>, recipient: &Address, amount: Amount) -> (r:
        Result<Transfer, CsprUSDError>)
        requires
            old(self).wf(),
        ensures
            final(self).wf(),
            final(self).properties() == old(self).properties(),
            ({
                let s = old(self)@;
                let sender = TokenModel::caller(stack@);
                &&& refused_with(
                    r,
                    ledger::transfer_refusal(
                        s.paused,
                        stack@,
                        recipient@,
                        s.is_blacklisted(sender),
                        s.is_blacklisted(recipient@),
                        s.balance(sender),
                        s.balance(recipient@),
                        amount.value(),
                    ),
                )
                &&& r is Ok ==> final(self)@ == (TokenModel {
                    balances: s.balances.insert(seq![sender], (s.balance(sender) - amount.value()) as nat).insert(
                        seq![recipient@],
                        s.balance(recipient@) + amount.value(),
                    ),
                    ..s
                }) && r->Ok_0.sender@ == sender && r->Ok_0.recipient@ == recipient@ && r->Ok_0.amount
                    == amount
                &&& r is Err ==> final(self)@ == s
            }),
            r is Err ==> r->Err_0 != CsprUSDError::Overflow,
    {
        proof {
            self.total_supply.lemma_value_bound();
            if TokenModel::caller(stack@) != recipient@ {
                self.lemma_two_balances_within_supply(TokenModel::caller(stack@), recipient@);
            }
        }
        let (sender_blacklisted, sender_balance) = self.caller_standing(stack);
        let effect = ledger::transfer(
            self.paused,
            stack,
            recipient,
            sender_blacklisted,
            self.is_blacklisted(recipient),
            sender_balance,
            self.balance_of(recipient),
            amount,
        )?;
        let ghost before = self@;
        self.set_balance(&effect.event.sender, effect.balances.from_balance);
        proof {
            assert(seq![effect.event.sender@][0] == effect.event.sender@);
            assert(self@.balance(recipient@) == before.balance(recipient@));
        }
        self.set_balance(recipient, effect.balances.to_balance);
        Ok(effect.event)
    }
    fn set_minter_flag(&mut self, a: &Address, v: bool)
        requires
            old(self).storage_wf(),
        ensures
            final(self).storage_wf(),
            final(self).balance_total() == old(self).balance_total(),
            final(self).total_supply == old(self).total_supply,
            final(self)@ == (TokenModel { minters: old(self)@.minters.insert(seq![a@], v), ..old(self)@ }),
            final(self).properties() == old(self).properties(),
    {
        self.minters.set(&path_of(a), v);
    }

    fn caller_address(stack: &Vec<CallerFrame>) -> (r: Option<Address>)
        ensures
            r is Some <==> caller_of(stack@) is Some,
            r is Some ==> r->Some_0@ == TokenModel::caller(stack@),
    {
        match get_immediate_caller_address(stack) {
            Ok(c) => Some(c),
            Err(_) => None,
        }
    }

    /// The caller, as spender, moves `amount` of `owner`'s tokens to
    /// `recipient` out of the allowance that `owner` gave it.
    pub fn transfer_from(
        &mut self,
        stack: &Vec<CallerFrame>,
        owner: &Address,
        recipient: &Address,
        amount: Amount,
    ) -> (r: Result<TransferFrom, CsprUSDError>)
        requires
            old(self).wf(),
        ensures
            final(self).wf(),
            final(self).properties() == old(self).properties(),
            ({
                let s = old(self)@;
                let spender = TokenModel::caller(stack@);
                &&& refused_with(
                    r,
                    ledger::transfer_from_refusal(
                        s.paused,
                        stack@,
                        owner@,
                        recipient@,
                        s.is_blacklisted(spender),
                        s.is_blacklisted(recipient@),
                        s.is_blacklisted(owner@),
                        s.allowance(owner@, spender),
                        s.balance(owner@),
                        s.balance(recipient@),
                        amount.value(),
                    ),
                )
                &&& r is Ok ==> final(self)@ == (TokenModel {
                    balances: s.balances.insert(seq![owner@], (s.balance(owner@) - amount.value()) as nat).insert(
                        seq![recipient@],
                        s.balance(recipient@) + amount.value(),
                    ),
                    allowances: s.allowances.insert(
                        seq![owner@, spender],
                        (s.allowance(owner@, spender) - amount.value()) as nat,
                    ),
                    ..s
                }) && r->Ok_0.spender@ == spender && r->Ok_0.owner@ == owner@ && r->Ok_0.recipient@
                    == recipient@ && r->Ok_0.amount == amount
                &&& r is Err ==> final(self)@ == s
            }),
            r is Err ==> r->Err_0 != CsprUSDError::Overflow,
    {
        proof {
            self.total_supply.lemma_value_bound();
            if owner@ != recipient@ {
                self.lemma_two_balances_within_supply(owner@, recipient@);
            }
        }
        let (spender_blacklisted, allowance) = match Token::caller_address(stack) {
            Some(c) => (self.is_blacklisted(&c), self.allowance(owner, &c)),
            None => (false, Amount::zero()),
        };
        let effect = ledger::transfer_from(
            self.paused,
            stack,
            owner,
            recipient,
            spender_blacklisted,
            self.is_blacklisted(recipient),
            self.is_blacklisted(owner),
            allowance,
            self.balance_of(owner),
            self.balance_of(recipient),
            amount,
        )?;
        let ghost before = self@;
        self.set_balance(owner, effect.balances.from_balance);
        proof {
            assert(seq![owner@][0] == owner@);
            assert(self@.balance(recipient@) == before.balance(recipient@));
        }
        self.set_balance(recipient, effect.balances.to_balance);
        self.set_allowance(owner, &effect.event.spender, effect.allowance);
        Ok(effect.event)
    }

    /// The blacklist standing of the caller and of `spender`.
    fn allowance_parties(&self, stack: &Vec<CallerFrame>, spender: &Address) -> (r: (bool, bool))
        requires
            self.wf(),
        ensures
            caller_of(stack@) is Some ==> r.0 == self@.is_blacklisted(TokenModel::caller(stack@)),
            r.1 == self@.is_blacklisted(spender@),
    {
        let owner_blacklisted = match Token::caller_address(stack) {
            Some(c) => self.is_blacklisted(&c),
            None => false,
        };
        (owner_blacklisted, self.is_blacklisted(spender))
    }

    /// The caller sets the allowance it gives `spender` to `amount`.
    pub fn approve(&mut self, stack: &Vec<CallerFrame>, spender: &Address, amount: Amount) -> (r:
        Result<SetAllowance, CsprUSDError>)
        requires
            old(self).wf(),
        ensures
            final(self).wf(),
            final(self).properties() == old(self).properties(),
            ({
                let s = old(self)@;
                let owner = TokenModel::caller(stack@);
                &&& refused_with(
                    r,
                    ledger::allowance_change_refusal(
                        s.paused,
                        stack@,
                        spender@,
                        s.is_blacklisted(owner),
                        s.is_blacklisted(spender@),
                    ),
                )
                &&& r is Ok ==> final(self)@ == (TokenModel {
                    allowances: s.allowances.insert(seq![owner, spender@], amount.value()),
                    ..s
                }) && r->Ok_0.owner@ == owner && r->Ok_0.spender@ == spender@ && r->Ok_0.allowance
                    == amount
                &&& r is Err ==> final(self)@ == s
            }),
    {
        let (owner_blacklisted, spender_blacklisted) = self.allowance_parties(stack, spender);
        let event = ledger::approve(
            self.paused,
            stack,
            spender,
            owner_blacklisted,
            spender_blacklisted,
            amount,
        )?;
        self.set_allowance(&event.owner, spender, event.allowance);
        Ok(event)
    }

    /// The caller raises the allowance it gives `spender` by `amount`, up to
    /// the largest amount.
    pub fn increase_allowance(&mut self, stack: &Vec<CallerFrame>, spender: &Address, amount: Amount) -> (r:
        Result<IncreaseAllowance, CsprUSDError>)
        requires
            old(self).wf(),
        ensures
            final(self).wf(),
            final(self).properties() == old(self).properties(),
            ({
                let s = old(self)@;
                let owner = TokenModel::caller(stack@);
                let sum = s.allowance(owner, spender@) + amount.value();
                &&& refused_with(
                    r,
                    ledger::allowance_change_refusal(
                        s.paused,
                        stack@,
                        spender@,
                        s.is_blacklisted(owner),
                        s.is_blacklisted(spender@),
                    ),
                )
                &&& r is Ok ==> final(self)@ == (TokenModel {
                    allowances: s.allowances.insert(
                        seq![owner, spender@],
                        if sum < amount_bound() {
                            sum
                        } else {
                            (amount_bound() - 1) as nat
                        },
                    ),
                    ..s
                }) && r->Ok_0.owner@ == owner && r->Ok_0.spender@ == spender@
                    && r->Ok_0.allowance.value() == final(self)@.allowance(owner, spender@)
                    && r->Ok_0.inc_by == amount
                &&& r is Err ==> final(self)@ == s
            }),
    {
        let (owner_blacklisted, spender_blacklisted) = self.allowance_parties(stack, spender);
        let current = match Token::caller_address(stack) {
            Some(c) => self.allowance(&c, spender),
            None => Amount::zero(),
        };
        let event = ledger::increase_allowance(
            self.paused,
            stack,
            spender,
            owner_blacklisted,
            spender_blacklisted,
            current,
            amount,
        )?;
        self.set_allowance(&event.owner, spender, event.allowance);
        Ok(event)
    }

    /// The caller lowers the allowance it gives `spender` by `amount`, down
    /// to zero.
    pub fn decrease_allowance(&mut self, stack: &Vec<CallerFrame>, spender: &Address, amount: Amount) -> (r:
        Result<DecreaseAllowance, CsprUSDError>)
        requires
            old(self).wf(),
        ensures
            final(self).wf(),
            final(self).properties() == old(self).properties(),
            ({
                let s = old(self)@;
                let owner = TokenModel::caller(stack@);
                let current = s.allowance(owner, spender@);
                &&& refused_with(
                    r,
                    ledger::allowance_change_refusal(
                        s.paused,
                        stack@,
                        spender@,
                        s.is_blacklisted(owner),
                        s.is_blacklisted(spender@),
                    ),
                )
                &&& r is Ok ==> final(self)@ == (TokenModel {
                    allowances: s.allowances.insert(
                        seq![owner, spender@],
                        if amount.value() <= current {
                            (current - amount.value()) as nat
                        } else {
                            0
                        },
                    ),
                    ..s
                }) && r->Ok_0.owner@ == owner && r->Ok_0.spender@ == spender@
                    && r->Ok_0.allowance.value() == final(self)@.allowance(owner, spender@)
                    && r->Ok_0.decr_by == amount
                &&& r is Err ==> final(self)@ == s
            }),
    {
        let (owner_blacklisted, spender_blacklisted) = self.allowance_parties(stack, spender);
        let current = match Token::caller_address(stack) {
            Some(c) => self.allowance(&c, spender),
            None => Amount::zero(),
        };
        let event = ledger::decrease_allowance(
            self.paused,
            stack,
            spender,
            owner_blacklisted,
            spender_blacklisted,
            current,
            amount,
        )?;
        self.set_allowance(&event.owner, spender, event.allowance);
        Ok(event)
    }

    /// The caller, a minter, creates `amount` new tokens for `recipient` out
    /// of its mint allowance.
    pub fn mint(&mut self, stack: &Vec<CallerFrame>, recipient: &Address, amount: Amount) -> (r: Result<
        Mint,
        CsprUSDError,
    >)
        requires
            old(self).wf(),
        ensures
            final(self).wf(),
            final(self).properties() == old(self).properties(),
            ({
                let s = old(self)@;
                let minter = TokenModel::caller(stack@);
                &&& refused_with(
                    r,
                    ledger::mint_refusal(
                        s.paused,
                        stack@,
                        s.is_minter(minter),
                        s.is_blacklisted(minter),
                        s.is_blacklisted(recipient@),
                        amount.value(),
                        s.minter_allowance(minter),
                        s.balance(recipient@),
                        s.total_supply,
                    ),
                )
                &&& r is Ok ==> final(self)@ == (TokenModel {
                    balances: s.balances.insert(seq![recipient@], s.balance(recipient@) + amount.value()),
                    minter_allowed: s.minter_allowed.insert(
                        seq![minter],
                        (s.minter_allowance(minter) - amount.value()) as nat,
                    ),
                    total_supply: s.total_supply + amount.value(),
                    ..s
                }) && r->Ok_0.minter@ == minter && r->Ok_0.recipient@ == recipient@ && r->Ok_0.amount
                    == amount
                &&& r is Err ==> final(self)@ == s
            }),
    {
        let (is_minter, minter_blacklisted, minter_allowance) = match Token::caller_address(stack) {
            Some(c) => (self.is_minter(&c), self.is_blacklisted(&c), self.minter_allowance(&c)),
            None => (false, false, Amount::zero()),
        };
        let effect = ledger::mint(
            self.paused,
            stack,
            recipient,
            is_minter,
            minter_blacklisted,
            self.is_blacklisted(recipient),
            amount,
            minter_allowance,
            self.balance_of(recipient),
            self.total_supply,
        )?;
        self.set_balance(recipient, effect.recipient_balance);
        self.set_minter_allowed(&effect.event.minter, effect.minter_allowance);
        self.total_supply = effect.total_supply;
        Ok(effect.event)
    }

    /// The caller, a minter, destroys `amount` of its own tokens.
    pub fn burn(&mut self, stack: &Vec<CallerFrame>, amount: Amount) -> (r: Result<Burn, CsprUSDError>)
        requires
            old(self).wf(),
        ensures
            final(self).wf(),
            final(self).properties() == old(self).properties(),
            ({
                let s = old(self)@;
                let minter = TokenModel::caller(stack@);
                &&& refused_with(
                    r,
                    ledger::burn_refusal(
                        s.paused,
                        stack@,
                        s.is_minter(minter),
                        s.is_blacklisted(minter),
                        amount.value(),
                        s.balance(minter),
                        s.total_supply,
                    ),
                )
                &&& r is Ok ==> final(self)@ == (TokenModel {
                    balances: s.balances.insert(seq![minter], (s.balance(minter) - amount.value()) as nat),
                    total_supply: (s.total_supply - amount.value()) as nat,
                    ..s
                }) && r->Ok_0.minter@ == minter && r->Ok_0.amount == amount
                &&& r is Err ==> final(self)@ == s
            }),
    {
        let (is_minter, minter_blacklisted, minter_balance) = match Token::caller_address(stack) {
            Some(c) => (self.is_minter(&c), self.is_blacklisted(&c), self.balance_of(&c)),
            None => (false, false, Amount::zero()),
        };
        let effect = ledger::burn(
            self.paused,
            stack,
            is_minter,
            minter_blacklisted,
            amount,
            minter_balance,
            self.total_supply,
        )?;
        self.total_supply = effect.total_supply;
        self.set_balance(&effect.event.minter, effect.minter_balance);
        Ok(effect.event)
    }
    /// The pauser pauses the contract.
    pub fn pause_contract(&mut self, stack: &Vec<CallerFrame>) -> (r: Result<Pause, CsprUSDError>)
        requires
            old(self).wf(),
        ensures
            final(self).wf(),
            final(self).properties() == old(self).properties(),
            refused_with(r, role_check(stack@, old(self)@.pauser, CsprUSDError::NotPauser)),
            r is Ok ==> final(self)@ == (TokenModel { paused: true, ..old(self)@ }),
            r is Err ==> final(self)@ == old(self)@,
    {
        let event = admin::pause_contract(stack, &self.pauser)?;
        self.paused = true;
        Ok(event)
    }

    /// The pauser unpauses the contract.
    pub fn unpause_contract(&mut self, stack: &Vec<CallerFrame>) -> (r: Result<Unpause, CsprUSDError>)
        requires
            old(self).wf(),
        ensures
            final(self).wf(),
            final(self).properties() == old(self).properties(),
            refused_with(r, role_check(stack@, old(self)@.pauser, CsprUSDError::NotPauser)),
            r is Ok ==> final(self)@ == (TokenModel { paused: false, ..old(self)@ }),
            r is Err ==> final(self)@ == old(self)@,
    {
        let event = admin::unpause_contract(stack, &self.pauser)?;
        self.paused = false;
        Ok(event)
    }

    /// The owner names a new pauser.
    pub fn update_pauser(&mut self, stack: &Vec<CallerFrame>, new_pauser: &Address) -> (r: Result<NewPauser, CsprUSDError>)
        requires
            old(self).wf(),
        ensures
            final(self).wf(),
            final(self).properties() == old(self).properties(),
            refused_with(r, role_check(stack@, old(self)@.owner, CsprUSDError::NotOwner)),
            r is Ok ==> final(self)@ == (TokenModel { pauser: new_pauser@, ..old(self)@ })
                && r->Ok_0.new_pauser@ == new_pauser@,
            r is Err ==> final(self)@ == old(self)@,
    {
        let event = admin::update_pauser(stack, &self.owner, new_pauser)?;
        self.pauser = new_pauser.duplicate();
        Ok(event)
    }

    /// The owner names a new master minter.
    pub fn update_master_minter(&mut self, stack: &Vec<CallerFrame>, new_master_minter: &Address) -> (r: Result<MasterMinterChanged, CsprUSDError>)
        requires
            old(self).wf(),
        ensures
            final(self).wf(),
            final(self).properties() == old(self).properties(),
            refused_with(r, role_check(stack@, old(self)@.owner, CsprUSDError::NotOwner)),
            r is Ok ==> final(self)@ == (TokenModel { master_minter: new_master_minter@, ..old(self)@ })
                && r->Ok_0.new_master_minter@ == new_master_minter@,
            r is Err ==> final(self)@ == old(self)@,
    {
        let event = admin::update_master_minter(stack, &self.owner, new_master_minter)?;
        self.master_minter = new_master_minter.duplicate();
        Ok(event)
    }

    /// The owner names a new blacklister, by the address of its account.
    pub fn update_blacklister(&mut self, stack: &Vec<CallerFrame>, new_blacklister: &Address) -> (r: Result<BlacklisterChanged, CsprUSDError>)
        requires
            old(self).wf(),
        ensures
            final(self).wf(),
            final(self).properties() == old(self).properties(),
            refused_with(r, role_check(stack@, old(self)@.owner, CsprUSDError::NotOwner)),
            r is Ok ==> final(self)@ == (TokenModel { blacklister: new_blacklister@, ..old(self)@ })
                && r->Ok_0.new_blacklister@ == new_blacklister@,
            r is Err ==> final(self)@ == old(self)@,
    {
        let event = admin::update_blacklister(stack, &self.owner, new_blacklister)?;
        self.blacklister = new_blacklister.duplicate();
        Ok(event)
    }

    /// The owner hands the token to a new owner.
    pub fn transfer_ownership(&mut self, stack: &Vec<CallerFrame>, new_owner: &Address) -> (r: Result<OwnershipTransferred, CsprUSDError>)
        requires
            old(self).wf(),
        ensures
            final(self).wf(),
            final(self).properties() == old(self).properties(),
            refused_with(r, role_check(stack@, old(self)@.owner, CsprUSDError::NotOwner)),
            r is Ok ==> final(self)@ == (TokenModel { owner: new_owner@, ..old(self)@ })
                && r->Ok_0.new_owner@ == new_owner@,
            r is Err ==> final(self)@ == old(self)@,
    {
        let event = admin::transfer_ownership(stack, &self.owner, new_owner)?;
        self.owner = new_owner.duplicate();
        Ok(event)
    }

    /// The master minter makes `minter` a minter with the given mint
    /// allowance.
    pub fn configure_minter(&mut self, stack: &Vec<CallerFrame>, minter: &Address, minter_allowance: Amount) -> (r:
        Result<MinterConfigured, CsprUSDError>)
        requires
            old(self).wf(),
        ensures
            final(self).wf(),
            final(self).properties() == old(self).properties(),
            refused_with(
                r,
                admin::configure_minter_refusal(old(self)@.paused, stack@, old(self)@.master_minter),
            ),
            r is Ok ==> final(self)@ == (TokenModel {
                minters: old(self)@.minters.insert(seq![minter@], true),
                minter_allowed: old(self)@.minter_allowed.insert(seq![minter@], minter_allowance.value()),
                ..old(self)@
            }) && r->Ok_0.minter@ == minter@ && r->Ok_0.minter_allowance == minter_allowance,
            r is Err ==> final(self)@ == old(self)@,
    {
        let event = admin::configure_minter(self.paused, stack, &self.master_minter, minter, minter_allowance)?;
        self.set_minter_flag(minter, true);
        self.set_minter_allowed(minter, minter_allowance);
        Ok(event)
    }

    /// The master minter takes the minter role, and its mint allowance, from
    /// `minter`.
    pub fn remove_minter(&mut self, stack: &Vec<CallerFrame>, minter: &Address) -> (r: Result<
        MinterRemoved,
        CsprUSDError,
    >)
        requires
            old(self).wf(),
        ensures
            final(self).wf(),
            final(self).properties() == old(self).properties(),
            refused_with(r, role_check(stack@, old(self)@.master_minter, CsprUSDError::NotMasterMinter)),
            r is Ok ==> final(self)@ == (TokenModel {
                minters: old(self)@.minters.insert(seq![minter@], false),
                minter_allowed: old(self)@.minter_allowed.insert(seq![minter@], 0),
                ..old(self)@
            }) && r->Ok_0.minter@ == minter@,
            r is Err ==> final(self)@ == old(self)@,
    {
        let event = admin::remove_minter(stack, &self.master_minter, minter)?;
        self.set_minter_flag(minter, false);
        self.set_minter_allowed(minter, Amount::zero());
        Ok(event)
    }

    /// The blacklister lists `key` at the end of the blacklist.
    pub fn blacklist(&mut self, stack: &Vec<CallerFrame>, key: &Address) -> (r: Result<
        Blacklisted,
        CsprUSDError,
    >)
        requires
            old(self).wf(),
        ensures
            final(self).wf(),
            final(self).properties() == old(self).properties(),
            refused_with(
                r,
                match role_check(stack@, old(self)@.blacklister, CsprUSDError::NotBlacklister) {
                    Some(e) => Some(e),
                    None => if old(self)@.is_blacklisted(key@) {
                        Some(CsprUSDError::AlreadyBlacklisted)
                    } else if old(self)@.blacklist.len() == u32::MAX {
                        Some(CsprUSDError::Overflow)
                    } else {
                        None
                    },
                },
            ),
            r is Ok ==> final(self)@ == (TokenModel {
                blacklist: old(self)@.blacklist.push(key@),
                ..old(self)@
            }) && r->Ok_0.key@ == key@,
            r is Err ==> final(self)@ == old(self)@,
    {
        only_blacklister(stack, &self.blacklister)?;
        self.blacklist.insert(key)?;
        Ok(Blacklisted { key: key.duplicate() })
    }

    /// The blacklister unlists `key`; the last entry of the blacklist takes
    /// its position.
    pub fn un_blacklist(&mut self, stack: &Vec<CallerFrame>, key: &Address) -> (r: Result<
        UnBlacklisted,
        CsprUSDError,
    >)
        requires
            old(self).wf(),
        ensures
            final(self).wf(),
            final(self).properties() == old(self).properties(),
            refused_with(
                r,
                match role_check(stack@, old(self)@.blacklister, CsprUSDError::NotBlacklister) {
                    Some(e) => Some(e),
                    None => if old(self)@.is_blacklisted(key@) {
                        None
                    } else {
                        Some(CsprUSDError::NotBlacklisted)
                    },
                },
            ),
            r is Ok ==> {
                let b = old(self)@.blacklist;
                &&& final(self)@ == (TokenModel {
                    blacklist: b.update(b.index_of(key@), b.last()).drop_last(),
                    ..old(self)@
                })
                &&& r->Ok_0.key@ == key@
            },
            r is Err ==> final(self)@ == old(self)@,
            r is Ok ==> forall|k: Seq<u8>|
                final(self)@.is_blacklisted(k) <==> old(self)@.is_blacklisted(k) && k != key@,
    {
        only_blacklister(stack, &self.blacklister)?;
        self.blacklist.remove(key)?;
        Ok(UnBlacklisted { key: key.duplicate() })
    }
}

} // verus!
