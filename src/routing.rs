//! Routing algorithm definitions and their validation against the enabled
//! connector accounts of a business profile.
use vstd::prelude::*;

use crate::errors::RoutingError;

verus! {

/// A connector to route to, optionally pinned to one of its accounts.
#[derive(Debug, Clone, PartialEq, Eq)]
pub struct RoutableConnectorChoice {
    /// The connector's name, as the connector accounts record it.
    pub connector: String,
    pub merchant_connector_id: Option<String>,
}

/// A connector choice with its share of a volume split.
#[derive(Debug, Clone, PartialEq, Eq)]
pub struct ConnectorVolumeSplit {
    pub connector: RoutableConnectorChoice,
    pub split: u8,
}

/// The connectors a rule of a routing program selects.
#[derive(Debug, Clone, PartialEq, Eq)]
pub enum ConnectorSelection {
    Priority(Vec<RoutableConnectorChoice>),
    VolumeSplit(Vec<ConnectorVolumeSplit>),
}

/// A rule of a routing program; its condition is not read here.
#[derive(Debug, Clone, PartialEq, Eq)]
pub struct Rule {
    pub name: String,
    pub connector_selection: ConnectorSelection,
}

/// A routing program: a default selection and ordered rules.
#[derive(Debug, Clone, PartialEq, Eq)]
pub struct Program {
    pub default_selection: ConnectorSelection,
    pub rules: Vec<Rule>,
}

/// A routing algorithm definition.
#[derive(Debug, Clone, PartialEq, Eq)]
pub enum RoutingAlgorithm {
    Single(RoutableConnectorChoice),
    Priority(Vec<RoutableConnectorChoice>),
    VolumeSplit(Vec<ConnectorVolumeSplit>),
    Advanced(Program),
}

/// A merchant connector account, as read from the store.
#[derive(Debug, Clone, PartialEq, Eq)]
pub struct MerchantConnectorAccount {
    pub connector_name: String,
    pub merchant_connector_id: String,
    pub profile_id: Option<String>,
    pub disabled: bool,
}

pub open spec fn split_choices(splits: Seq<ConnectorVolumeSplit>) -> Seq<RoutableConnectorChoice> {
    splits.map_values(|s: ConnectorVolumeSplit| s.connector)
}

/// Every connector choice of a selection, in document order.
pub open spec fn selection_choices(selection: ConnectorSelection) -> Seq<RoutableConnectorChoice> {
    match selection {
        ConnectorSelection::Priority(list) => list@,
        ConnectorSelection::VolumeSplit(splits) => split_choices(splits@),
    }
}

/// Every connector choice of a sequence of rules, in document order.
pub open spec fn rules_choices(rules: Seq<Rule>) -> Seq<RoutableConnectorChoice>
    decreases rules.len(),
{
    if rules.len() == 0 {
        Seq::empty()
    } else {
        selection_choices(rules[0].connector_selection) + rules_choices(rules.drop_first())
    }
}

/// Every leaf connector choice of an algorithm, in document order.
pub open spec fn algorithm_choices(algorithm: RoutingAlgorithm) -> Seq<RoutableConnectorChoice> {
    match algorithm {
        RoutingAlgorithm::Single(choice) => seq![choice],
        RoutingAlgorithm::Priority(list) => list@,
        RoutingAlgorithm::VolumeSplit(splits) => split_choices(splits@),
        RoutingAlgorithm::Advanced(program) => selection_choices(program.default_selection)
            + rules_choices(program.rules@),
    }
}

/// The account is enabled and belongs to the profile.
pub open spec fn serves_profile(account: MerchantConnectorAccount, profile_id: Seq<char>) -> bool {
    &&& !account.disabled
    &&& match account.profile_id {
        Some(p) => p@ == profile_id,
        None => false,
    }
}

/// One of the first `upto` accounts serves the profile with this connector
/// name and account id.
pub open spec fn pair_listed(
    accounts: Seq<MerchantConnectorAccount>,
    profile_id: Seq<char>,
    name: Seq<char>,
    id: Seq<char>,
    upto: int,
) -> bool {
    exists|j: int|
        #![trigger accounts[j]]
        0 <= j < upto && serves_profile(accounts[j], profile_id) && accounts[j].connector_name@ == name
            && accounts[j].merchant_connector_id@ == id
}

/// One of the first `upto` accounts serves the profile with this connector name.
pub open spec fn name_listed(
    accounts: Seq<MerchantConnectorAccount>,
    profile_id: Seq<char>,
    name: Seq<char>,
    upto: int,
) -> bool {
    exists|j: int|
        #![trigger accounts[j]]
        0 <= j < upto && serves_profile(accounts[j], profile_id) && accounts[j].connector_name@ == name
}

/// The choice refers to an enabled account of the profile: the very account
/// where it names one, else any account of its connector.
pub open spec fn choice_available(
    accounts: Seq<MerchantConnectorAccount>,
    profile_id: Seq<char>,
    choice: RoutableConnectorChoice,
) -> bool {
    match choice.merchant_connector_id {
        Some(id) => pair_listed(accounts, profile_id, choice.connector@, id@, accounts.len() as int),
        None => name_listed(accounts, profile_id, choice.connector@, accounts.len() as int),
    }
}

/// The first choice, in order, that refers to no enabled account of the profile.
pub open spec fn first_missing(
    choices: Seq<RoutableConnectorChoice>,
    accounts: Seq<MerchantConnectorAccount>,
    profile_id: Seq<char>,
) -> Option<RoutableConnectorChoice>
    decreases choices.len(),
{
    if choices.len() == 0 {
        None
    } else if !choice_available(accounts, profile_id, choices[0]) {
        Some(choices[0])
    } else {
        first_missing(choices.drop_first(), accounts, profile_id)
    }
}

pub open spec fn not_found_error(choice: RoutableConnectorChoice) -> RoutingError {
    RoutingError::ConnectorNotFound {
        connector: choice.connector,
        merchant_connector_id: choice.merchant_connector_id,
    }
}

/// The outcome of validating these choices, in order.
pub open spec fn choices_outcome(
    choices: Seq<RoutableConnectorChoice>,
    accounts: Seq<MerchantConnectorAccount>,
    profile_id: Seq<char>,
) -> Result<(), RoutingError> {
    match first_missing(choices, accounts, profile_id) {
        None => Ok(()),
        Some(choice) => Err(not_found_error(choice)),
    }
}

/// The outcome of validating an algorithm against the profile's accounts.
pub open spec fn spec_validate(
    accounts: Seq<MerchantConnectorAccount>,
    profile_id: Seq<char>,
    algorithm: RoutingAlgorithm,
) -> Result<(), RoutingError> {
    choices_outcome(algorithm_choices(algorithm), accounts, profile_id)
}

proof fn lemma_first_missing_concat(
    a: Seq<RoutableConnectorChoice>,
    b: Seq<RoutableConnectorChoice>,
    accounts: Seq<MerchantConnectorAccount>,
    profile_id: Seq<char>,
)
    ensures
        first_missing(a + b, accounts, profile_id) == (match first_missing(a, accounts, profile_id) {
            Some(c) => Some(c),
            None => first_missing(b, accounts, profile_id),
        }),
    decreases a.len(),
{
    if a.len() == 0 {
        assert(a + b =~= b);
    } else {
        assert((a + b)[0] == a[0]);
        assert((a + b).drop_first() =~= a.drop_first() + b);
        lemma_first_missing_concat(a.drop_first(), b, accounts, profile_id);
    }
}

proof fn lemma_first_missing_unfold(
    s: Seq<RoutableConnectorChoice>,
    i: int,
    accounts: Seq<MerchantConnectorAccount>,
    profile_id: Seq<char>,
)
    requires
        0 <= i < s.len(),
    ensures
        first_missing(s.skip(i), accounts, profile_id) == (if !choice_available(accounts, profile_id, s[i]) {
            Some(s[i])
        } else {
            first_missing(s.skip(i + 1), accounts, profile_id)
        }),
{
    assert(s.skip(i)[0] == s[i]);
    assert(s.skip(i).drop_first() =~= s.skip(i + 1));
}

/// Validation accepts exactly when every leaf choice refers to an enabled
/// account of the profile; otherwise it names the first leaf, in document
/// order, that does not.
pub proof fn lemma_validate_accepts_iff_all_available(
    accounts: Seq<MerchantConnectorAccount>,
    profile_id: Seq<char>,
    algorithm: RoutingAlgorithm,
)
    ensures
        spec_validate(accounts, profile_id, algorithm) is Ok <==> forall|i: int|
            0 <= i < algorithm_choices(algorithm).len() ==> choice_available(
                accounts,
                profile_id,
                #[trigger] algorithm_choices(algorithm)[i],
            ),
        spec_validate(accounts, profile_id, algorithm) is Err ==> exists|k: int|
            0 <= k < algorithm_choices(algorithm).len() && !choice_available(
                accounts,
                profile_id,
                #[trigger] algorithm_choices(algorithm)[k],
            ) && spec_validate(accounts, profile_id, algorithm) == Err::<(), RoutingError>(
                not_found_error(algorithm_choices(algorithm)[k]),
            ) && forall|j: int|
                0 <= j < k ==> choice_available(accounts, profile_id, #[trigger] algorithm_choices(algorithm)[j]),
{
    lemma_first_missing_characterised(algorithm_choices(algorithm), accounts, profile_id);
}

proof fn lemma_first_missing_characterised(
    s: Seq<RoutableConnectorChoice>,
    accounts: Seq<MerchantConnectorAccount>,
    profile_id: Seq<char>,
)
    ensures
        first_missing(s, accounts, profile_id) is None <==> forall|i: int|
            0 <= i < s.len() ==> choice_available(accounts, profile_id, #[trigger] s[i]),
        first_missing(s, accounts, profile_id) is Some ==> exists|k: int|
            0 <= k < s.len() && !choice_available(accounts, profile_id, #[trigger] s[k])
                && first_missing(s, accounts, profile_id) == Some(s[k]) && forall|j: int|
                0 <= j < k ==> choice_available(accounts, profile_id, #[trigger] s[j]),
    decreases s.len(),
{
    if s.len() > 0 {
        let t = s.drop_first();
        lemma_first_missing_characterised(t, accounts, profile_id);
        assert forall|i: int| 0 <= i < t.len() implies #[trigger] t[i] == s[i + 1] by {}
        if choice_available(accounts, profile_id, s[0]) {
            if first_missing(t, accounts, profile_id) is None {
                assert forall|i: int| 0 <= i < s.len() implies choice_available(
                    accounts,
                    profile_id,
                    #[trigger] s[i],
                ) by {
                    if i > 0 {
                        assert(s[i] == t[i - 1]);
                    }
                }
            } else {
                let k = choose|k: int|
                    0 <= k < t.len() && !choice_available(accounts, profile_id, #[trigger] t[k])
                        && first_missing(t, accounts, profile_id) == Some(t[k]) && forall|j: int|
                        0 <= j < k ==> choice_available(accounts, profile_id, #[trigger] t[j]);
                assert(s[k + 1] == t[k]);
                assert forall|j: int| 0 <= j < k + 1 implies choice_available(
                    accounts,
                    profile_id,
                    #[trigger] s[j],
                ) by {
                    if j > 0 {
                        assert(s[j] == t[j - 1]);
                    }
                }
            }
        } else {
            assert(!choice_available(accounts, profile_id, s[0]));
        }
    }
}

/// Connector names of a profile's accounts, held in an `FxHashSet`.
#[verifier::external_body]
pub struct ConnectorNameSet {
    set: rustc_hash::FxHashSet<String>,
}

/// Connector name and account id pairs of a profile's accounts, held in an
/// `FxHashSet`.
#[verifier::external_body]
pub struct ConnectorAccountSet {
    set: rustc_hash::FxHashSet<(String, String)>,
}

/// What a `ConnectorNameSet` holds.
pub uninterp spec fn name_set_contents(s: ConnectorNameSet) -> Set<Seq<char>>;

/// What a `ConnectorAccountSet` holds.
pub uninterp spec fn account_set_contents(s: ConnectorAccountSet) -> Set<(Seq<char>, Seq<char>)>;

impl ConnectorNameSet {
    /// Relies on `FxHashSet::default` (rustc_hash): a new set is empty.
    #[verifier::external_body]
    fn new() -> (r: ConnectorNameSet)
        ensures
            name_set_contents(r) == Set::<Seq<char>>::empty(),
    {
        ConnectorNameSet { set: rustc_hash::FxHashSet::default() }
    }

    /// Relies on `HashSet::insert` under the `FxHasher` of rustc_hash: the
    /// name is added, with `String`'s equality.
    #[verifier::external_body]
    fn insert(&mut self, name: String)
        ensures
            name_set_contents(*final(self)) == name_set_contents(*old(self)).insert(name@),
    {
        self.set.insert(name);
    }

    /// Relies on `HashSet::contains` under the `FxHasher` of rustc_hash.
    #[verifier::external_body]
    fn contains(&self, name: &str) -> (r: bool)
        ensures
            r == name_set_contents(*self).contains(name@),
    {
        self.set.contains(name)
    }
}

impl ConnectorAccountSet {
    /// Relies on `FxHashSet::default` (rustc_hash): a new set is empty.
    #[verifier::external_body]
    fn new() -> (r: ConnectorAccountSet)
        ensures
            account_set_contents(r) == Set::<(Seq<char>, Seq<char>)>::empty(),
    {
        ConnectorAccountSet { set: rustc_hash::FxHashSet::default() }
    }

    /// Relies on `HashSet::insert` under the `FxHasher` of rustc_hash: the
    /// pair is added, with the equality of `(String, String)`.
    #[verifier::external_body]
    fn insert(&mut self, name: String, id: String)
        ensures
            account_set_contents(*final(self)) == account_set_contents(*old(self)).insert((name@, id@)),
    {
        self.set.insert((name, id));
    }

    /// Relies on `HashSet::contains` under the `FxHasher` of rustc_hash.
    #[verifier::external_body]
    fn contains(&self, name: &str, id: &str) -> (r: bool)
        ensures
            r == account_set_contents(*self).contains((name@, id@)),
    {
        self.set.contains(&(name.to_string(), id.to_string()))
    }
}

/// The enabled connectors of one business profile, indexed by name and by
/// name with account id.
pub struct ProfileConnectors {
    pairs: ConnectorAccountSet,
    names: ConnectorNameSet,
    accounts: Ghost<Seq<MerchantConnectorAccount>>,
    profile_id: Ghost<Seq<char>>,
}

impl ProfileConnectors {
    pub closed spec fn accounts(&self) -> Seq<MerchantConnectorAccount> {
        self.accounts@
    }

    pub closed spec fn profile_id(&self) -> Seq<char> {
        self.profile_id@
    }

    pub closed spec fn wf(&self) -> bool {
        &&& forall|n: Seq<char>, m: Seq<char>|
            #[trigger] account_set_contents(self.pairs).contains((n, m)) <==> pair_listed(
                self.accounts@,
                self.profile_id@,
                n,
                m,
                self.accounts@.len() as int,
            )
        &&& forall|n: Seq<char>|
            #[trigger] name_set_contents(self.names).contains(n) <==> name_listed(
                self.accounts@,
                self.profile_id@,
                n,
                self.accounts@.len() as int,
            )
    }

    /// Indexes the enabled accounts of the profile; disabled accounts and
    /// those of other profiles are left out.
    pub fn new(accounts: &Vec<MerchantConnectorAccount>, profile_id: &str) -> (r: ProfileConnectors)
        ensures
            r.wf(),
            r.accounts() == accounts@,
            r.profile_id() == profile_id@,
    {
        let profile: String = profile_id.to_owned();
        let mut pairs = ConnectorAccountSet::new();
        let mut names = ConnectorNameSet::new();
        let mut i: usize = 0;
        while i < accounts.len()
            invariant
                i <= accounts@.len(),
                profile@ == profile_id@,
                forall|n: Seq<char>, m: Seq<char>|
                    #[trigger] account_set_contents(pairs).contains((n, m)) <==> pair_listed(
                        accounts@,
                        profile_id@,
                        n,
                        m,
                        i as int,
                    ),
                forall|n: Seq<char>|
                    #[trigger] name_set_contents(names).contains(n) <==> name_listed(
                        accounts@,
                        profile_id@,
                        n,
                        i as int,
                    ),
            decreases accounts.len() - i,
        {
            let account = &accounts[i];
            let serves = !account.disabled && match &account.profile_id {
                Some(p) => *p == profile,
                None => false,
            };
            assert(serves == serves_profile(accounts@[i as int], profile_id@));
            if serves {
                pairs.insert(account.connector_name.clone(), account.merchant_connector_id.clone());
                names.insert(account.connector_name.clone());
            }
            assert forall|n: Seq<char>, m: Seq<char>|
                #[trigger] account_set_contents(pairs).contains((n, m)) <==> pair_listed(
                    accounts@,
                    profile_id@,
                    n,
                    m,
                    i + 1,
                ) by {
                if pair_listed(accounts@, profile_id@, n, m, i + 1) && !pair_listed(
                    accounts@,
                    profile_id@,
                    n,
                    m,
                    i as int,
                ) {
                    let j = choose|j: int|
                        #![trigger accounts@[j]]
                        0 <= j < i + 1 && serves_profile(accounts@[j], profile_id@)
                            && accounts@[j].connector_name@ == n
                            && accounts@[j].merchant_connector_id@ == m;
                    assert(j == i);
                }
            }
            assert forall|n: Seq<char>|
                #[trigger] name_set_contents(names).contains(n) <==> name_listed(
                    accounts@,
                    profile_id@,
                    n,
                    i + 1,
                ) by {
                if name_listed(accounts@, profile_id@, n, i + 1) && !name_listed(
                    accounts@,
                    profile_id@,
                    n,
                    i as int,
                ) {
                    let j = choose|j: int|
                        #![trigger accounts@[j]]
                        0 <= j < i + 1 && serves_profile(accounts@[j], profile_id@)
                            && accounts@[j].connector_name@ == n;
                    assert(j == i);
                }
            }
            i = i + 1;
        }
        ProfileConnectors {
            pairs,
            names,
            accounts: Ghost(accounts@),
            profile_id: Ghost(profile_id@),
        }
    }

    /// Whether the choice refers to an enabled account of the profile.
    pub fn is_available(&self, choice: &RoutableConnectorChoice) -> (r: bool)
        requires
            self.wf(),
        ensures
            r == choice_available(self.accounts(), self.profile_id(), *choice),
    {
        match &choice.merchant_connector_id {
            Some(id) => self.pairs.contains(choice.connector.as_str(), id.as_str()),
            None => self.names.contains(choice.connector.as_str()),
        }
    }

    /// Checks one connector choice.
    pub fn check_choice(&self, choice: &RoutableConnectorChoice) -> (r: Result<(), RoutingError>)
        requires
            self.wf(),
        ensures
            r == (if choice_available(self.accounts(), self.profile_id(), *choice) {
                Ok(())
            } else {
                Err(not_found_error(*choice))
            }),
    {
        if self.is_available(choice) {
            Ok(())
        } else {
            let merchant_connector_id = match &choice.merchant_connector_id {
                Some(id) => Some(id.clone()),
                None => None,
            };
            Err(RoutingError::ConnectorNotFound { connector: choice.connector.clone(), merchant_connector_id })
        }
    }

    /// Checks each choice of a priority list, in order.
    pub fn check_list(&self, list: &Vec<RoutableConnectorChoice>) -> (r: Result<(), RoutingError>)
        requires
            self.wf(),
        ensures
            r == choices_outcome(list@, self.accounts(), self.profile_id()),
    {
        let ghost accounts = self.accounts();
        let ghost profile_id = self.profile_id();
        let mut i: usize = 0;
        assert(list@.skip(0) =~= list@);
        while i < list.len()
            invariant
                self.wf(),
                accounts == self.accounts(),
                profile_id == self.profile_id(),
                i <= list@.len(),
                first_missing(list@, accounts, profile_id) == first_missing(list@.skip(i as int), accounts, profile_id),
            decreases list.len() - i,
        {
            proof {
                lemma_first_missing_unfold(list@, i as int, accounts, profile_id);
            }
            let r = self.check_choice(&list[i]);
            if r.is_err() {
                return r;
            }
            i = i + 1;
        }
        assert(list@.skip(i as int) =~= Seq::<RoutableConnectorChoice>::empty());
        Ok(())
    }

    /// Checks the choice of each split, in order; weights are not checked.
    pub fn check_splits(&self, splits: &Vec<ConnectorVolumeSplit>) -> (r: Result<(), RoutingError>)
        requires
            self.wf(),
        ensures
            r == choices_outcome(split_choices(splits@), self.accounts(), self.profile_id()),
    {
        let ghost accounts = self.accounts();
        let ghost profile_id = self.profile_id();
        let ghost choices = split_choices(splits@);
        let mut i: usize = 0;
        assert(choices.skip(0) =~= choices);
        while i < splits.len()
            invariant
                self.wf(),
                accounts == self.accounts(),
                profile_id == self.profile_id(),
                i <= splits@.len(),
                choices == split_choices(splits@),
                choices.len() == splits@.len(),
                first_missing(choices, accounts, profile_id) == first_missing(choices.skip(i as int), accounts, profile_id),
            decreases splits.len() - i,
        {
            proof {
                lemma_first_missing_unfold(choices, i as int, accounts, profile_id);
            }
            assert(choices[i as int] == splits@[i as int].connector);
            let r = self.check_choice(&splits[i].connector);
            if r.is_err() {
                return r;
            }
            i = i + 1;
        }
        assert(choices.skip(i as int) =~= Seq::<RoutableConnectorChoice>::empty());
        Ok(())
    }

    /// Checks every choice of a selection, in order.
    pub fn check_selection(&self, selection: &ConnectorSelection) -> (r: Result<(), RoutingError>)
        requires
            self.wf(),
        ensures
            r == choices_outcome(selection_choices(*selection), self.accounts(), self.profile_id()),
    {
        match selection {
            ConnectorSelection::Priority(list) => self.check_list(list),
            ConnectorSelection::VolumeSplit(splits) => self.check_splits(splits),
        }
    }

    /// Checks the selection of each rule, in order.
    pub fn check_rules(&self, rules: &Vec<Rule>) -> (r: Result<(), RoutingError>)
        requires
            self.wf(),
        ensures
            r == choices_outcome(rules_choices(rules@), self.accounts(), self.profile_id()),
    {
        let ghost accounts = self.accounts();
        let ghost profile_id = self.profile_id();
        let mut i: usize = 0;
        assert(rules@.skip(0) =~= rules@);
        while i < rules.len()
            invariant
                self.wf(),
                accounts == self.accounts(),
                profile_id == self.profile_id(),
                i <= rules@.len(),
                first_missing(rules_choices(rules@), accounts, profile_id) == first_missing(
                    rules_choices(rules@.skip(i as int)),
                    accounts,
                    profile_id,
                ),
            decreases rules.len() - i,
        {
            let ghost rest = rules@.skip(i as int);
            assert(rest[0] == rules@[i as int]);
            assert(rest.drop_first() =~= rules@.skip(i + 1));
            proof {
                lemma_first_missing_concat(
                    selection_choices(rules@[i as int].connector_selection),
                    rules_choices(rules@.skip(i + 1)),
                    accounts,
                    profile_id,
                );
            }
            let r = self.check_selection(&rules[i].connector_selection);
            if r.is_err() {
                return r;
            }
            i = i + 1;
        }
        assert(rules@.skip(i as int) =~= Seq::<Rule>::empty());
        Ok(())
    }

    /// Checks every leaf choice of an algorithm, in document order.
    pub fn check_algorithm(&self, algorithm: &RoutingAlgorithm) -> (r: Result<(), RoutingError>)
        requires
            self.wf(),
        ensures
            r == spec_validate(self.accounts(), self.profile_id(), *algorithm),
    {
        match algorithm {
            RoutingAlgorithm::Single(choice) => {
                let ghost s = seq![*choice];
                assert(s[0] == *choice);
                assert(s.drop_first() =~= Seq::<RoutableConnectorChoice>::empty());
                assert(first_missing(s.drop_first(), self.accounts(), self.profile_id()) is None);
                self.check_choice(choice)
            },
            RoutingAlgorithm::Priority(list) => self.check_list(list),
            RoutingAlgorithm::VolumeSplit(splits) => self.check_splits(splits),
            RoutingAlgorithm::Advanced(program) => {
                proof {
                    lemma_first_missing_concat(
                        selection_choices(program.default_selection),
                        rules_choices(program.rules@),
                        self.accounts(),
                        self.profile_id(),
                    );
                }
                let r = self.check_selection(&program.default_selection);
                if r.is_err() {
                    return r;
                }
                self.check_rules(&program.rules)
            },
        }
    }
}

/// Validates every connector reference of a routing algorithm against the
/// enabled connector accounts of the profile, failing on the first invalid
/// one in document order.
pub fn validate_connectors_in_routing_config(
    accounts: &Vec<MerchantConnectorAccount>,
    profile_id: &str,
    routing_algorithm: &RoutingAlgorithm,
) -> (r: Result<(), RoutingError>)
    ensures
        r == spec_validate(accounts@, profile_id@, *routing_algorithm),
{
    let connectors = ProfileConnectors::new(accounts, profile_id);
    connectors.check_algorithm(routing_algorithm)
}

} // verus!
