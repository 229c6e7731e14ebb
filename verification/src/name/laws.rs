//! What holds of the name ownership contract across its messages.

use vstd::prelude::*;
use crate::name::contract::may_run_base;
use crate::name::msg::Config;

verus! {

/// While names are not transferable, only the admin and the minter may run
/// messages of the token contract; once they are, anyone may.
pub proof fn law_transfers_follow_the_flag(config: Config, minter: Seq<char>, sender: Seq<char>)
    ensures
        !config.transferable && sender != config.admin@ && sender != minter ==> !may_run_base(
            config,
            minter,
            sender,
        ),
        may_run_base(Config { transferable: true, ..config }, minter, sender),
{
}

/// Handing the admin role to `new_admin` takes the admin's rights from the old
/// admin: unless it is the minter or names are transferable, it may no longer
/// run messages of the token contract.
pub proof fn law_admin_handover(config: Config, new_admin: String, minter: Seq<char>)
    requires
        new_admin@ != config.admin@,
    ensures
        may_run_base(Config { admin: new_admin, ..config }, minter, config.admin@) == (minter
            == config.admin@ || config.transferable),
{
}

/// The admin and the minter may always run messages of the token contract,
/// whatever the configuration and whether or not they are the same address;
/// anyone else may exactly while names are transferable.
pub proof fn law_admin_and_minter_may_run_base(config: Config, minter: Seq<char>, sender: Seq<char>)
    ensures
        may_run_base(config, minter, config.admin@),
        may_run_base(config, minter, minter),
        sender != config.admin@ && sender != minter ==> (may_run_base(config, minter, sender)
            <==> config.transferable),
{
}

} // verus!
