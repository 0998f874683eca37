use crate::address::Address;
use crate::error::VaultError;
use vstd::prelude::*;
use vstd::seq_lib::lemma_seq_contains_after_push;

verus! {

/// The most programs the registry can hold.
pub const MAX_AUTHORIZED_PROGRAMS: usize = 10;

/// `list` with every entry equal to `program` taken out, the others in their order.
pub open spec fn without(list: Seq<Address>, program: Address) -> Seq<Address> {
    list.filter(|listed: Address| listed != program)
}

/// The registry of programs that may lock, unlock and transfer collateral.
///
/// `admin` is set when the registry is created and never changes. The list
/// holds at most ten programs and none of them twice, from its creation on.
#[derive(Clone, Debug, PartialEq, Eq)]
pub struct VaultAuthority {
    /// Who may change the registry.
    pub admin: Address,
    /// The programs allowed to lock, unlock and transfer, in the order they were added.
    pub authorized_programs: Vec<Address>,
    /// The bump of the registry's own address.
    pub bump: u8,
}

impl VaultAuthority {
    /// The registry holds no more programs than it has room for.
    pub open spec fn within_capacity(&self) -> bool {
        self.authorized_programs@.len() <= MAX_AUTHORIZED_PROGRAMS
    }

    /// No program is listed twice.
    pub open spec fn distinct(&self) -> bool {
        self.authorized_programs@.no_duplicates()
    }

    /// Whether a registry may start out with `list`, and if not, why: the
    /// list is too long, or it names a program twice.
    pub open spec fn admits(list: Seq<Address>) -> Result<(), VaultError> {
        if list.len() > MAX_AUTHORIZED_PROGRAMS {
            Err(VaultError::TooManyPrograms)
        } else if !list.no_duplicates() {
            Err(VaultError::ProgramAlreadyAuthorized)
        } else {
            Ok(())
        }
    }

    /// Whether `caller` is on the list.
    pub open spec fn authorizes(&self, caller: Address) -> bool {
        self.authorized_programs@.contains(caller)
    }

    /// The list after `program` was added at its end, or why it cannot be added.
    pub open spec fn after_add(&self, program: Address) -> Result<Seq<Address>, VaultError> {
        if self.authorized_programs@.len() >= MAX_AUTHORIZED_PROGRAMS {
            Err(VaultError::TooManyPrograms)
        } else if self.authorized_programs@.contains(program) {
            Err(VaultError::ProgramAlreadyAuthorized)
        } else {
            Ok(self.authorized_programs@.push(program))
        }
    }

    /// The list with every entry equal to `program` taken out, the others in
    /// their order.
    pub open spec fn after_remove(&self, program: Address) -> Seq<Address> {
        without(self.authorized_programs@, program)
    }

    /// Whether `caller` is on the list.
    pub fn is_authorized(&self, caller: &Address) -> (listed: bool)
        ensures
            listed == self.authorizes(*caller),
    {
        let mut i: usize = 0;
        while i < self.authorized_programs.len()
            invariant
                i <= self.authorized_programs@.len(),
                forall|k: int| 0 <= k < i ==> self.authorized_programs@[k] != *caller,
            decreases self.authorized_programs@.len() - i,
        {
            if self.authorized_programs[i] == *caller {
                return true;
            }
            i += 1;
        }
        false
    }
}

/// Removal looks at each entry by itself: what it keeps of a list with one
/// more entry at its end is what it keeps of the list, and that entry unless
/// it is the program.
pub proof fn lemma_without_push(list: Seq<Address>, last: Address, program: Address)
    ensures
        without(list.push(last), program) == if last != program {
            without(list, program).push(last)
        } else {
            without(list, program)
        },
{
    reveal(Seq::filter);
    assert(list.push(last).drop_last() =~= list);
}

/// After a removal the list holds exactly the entries it held before that
/// differ from the program.
pub proof fn lemma_without_membership(list: Seq<Address>, program: Address, entry: Address)
    ensures
        without(list, program).contains(entry) <==> list.contains(entry) && entry != program,
    decreases list.len(),
{
    if list.len() == 0 {
        reveal(Seq::filter);
    } else {
        let init = list.drop_last();
        let last = list.last();
        assert(list =~= init.push(last));
        lemma_without_push(init, last, program);
        lemma_without_membership(init, program, entry);
        lemma_seq_contains_after_push(init, last, entry);
        lemma_seq_contains_after_push(without(init, program), last, entry);
    }
}

/// Removal of a program that is not listed changes nothing.
pub proof fn lemma_remove_absent_is_noop(list: Seq<Address>, program: Address)
    requires
        !list.contains(program),
    ensures
        without(list, program) == list,
    decreases list.len(),
{
    if list.len() == 0 {
        reveal(Seq::filter);
    } else {
        let init = list.drop_last();
        let last = list.last();
        assert(list =~= init.push(last));
        lemma_seq_contains_after_push(init, last, program);
        lemma_without_push(init, last, program);
        lemma_remove_absent_is_noop(init, program);
    }
}

/// Removal never makes a list longer, and keeps a list without duplicates
/// free of them.
pub proof fn lemma_remove_keeps_distinct(list: Seq<Address>, program: Address)
    ensures
        without(list, program).len() <= list.len(),
        list.no_duplicates() ==> without(list, program).no_duplicates(),
    decreases list.len(),
{
    if list.len() == 0 {
        reveal(Seq::filter);
    } else {
        let init = list.drop_last();
        let last = list.last();
        assert(list =~= init.push(last));
        lemma_without_push(init, last, program);
        lemma_remove_keeps_distinct(init, program);
        if list.no_duplicates() {
            assert(init.no_duplicates());
            lemma_without_membership(init, program, last);
            assert(!init.contains(last)) by {
                if init.contains(last) {
                    let i = choose|i: int| 0 <= i < init.len() && init[i] == last;
                    assert(list[i] == list[list.len() - 1]);
                }
            }
            let kept = without(init, program);
            assert(kept.push(last).no_duplicates()) by {
                assert forall|i: int, j: int|
                    0 <= i < kept.len() + 1 && 0 <= j < kept.len() + 1 && i != j implies kept.push(
                    last,
                )[i] != kept.push(last)[j] by {
                    if i < kept.len() && j < kept.len() {
                    } else if i < kept.len() {
                        assert(kept.contains(kept[i]));
                    } else {
                        assert(kept.contains(kept[j]));
                    }
                }
            }
        }
    }
}

} // verus!
