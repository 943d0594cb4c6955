//! The administrator-managed oracle allowlist and its attestation threshold.
use vstd::prelude::*;

use crate::constants::MAX_ORACLES;
use crate::error::TimlgError;
use crate::oracle::is_unset;
use crate::pubkey::Pubkey;
use crate::state::{Config, OracleSet};

verus! {

/// Whether `k` occurs in `s`.
pub open spec fn listed(s: Seq<Pubkey>, k: Pubkey) -> bool {
    exists|i: int| 0 <= i < s.len() && (#[trigger] s[i])@ == k@
}

/// The first refused key of a proposed allowlist from position `i` on: an
/// unset key, or one that repeats an earlier key.
pub open spec fn oracle_list_error(s: Seq<Pubkey>, i: int) -> Option<TimlgError>
    decreases s.len() - i,
{
    if i < 0 || i >= s.len() {
        None
    } else if is_unset(s[i]) {
        Some(TimlgError::OracleNotFound)
    } else if listed(s.take(i), s[i]) {
        Some(TimlgError::OracleAlreadyExists)
    } else {
        oracle_list_error(s, i + 1)
    }
}

/// Position of the first occurrence of `k` in `v`, if any.
pub fn position_of(v: &Vec<Pubkey>, k: &Pubkey) -> (r: Option<usize>)
    ensures
        r matches Some(i) ==> i < v@.len() && v@[i as int]@ == k@ && !listed(v@.take(i as int), *k),
        r is None <==> !listed(v@, *k),
{
    let mut i: usize = 0;
    while i < v.len()
        invariant
            i <= v@.len(),
            !listed(v@.take(i as int), *k),
        decreases v@.len() - i,
    {
        if v[i] == *k {
            return Some(i);
        }
        assert(v@.take(i + 1) =~= v@.take(i as int).push(v@[i as int]));
        i = i + 1;
    }
    assert(v@.take(v@.len() as int) =~= v@);
    None
}

/// Why a new allowlist is refused, if it is.
pub open spec fn init_oracle_set_error(
    cfg: Config,
    admin: Pubkey,
    threshold: u8,
    initial: Seq<Pubkey>,
) -> Option<TimlgError> {
    if cfg.admin@ != admin@ {
        Some(TimlgError::Unauthorized)
    } else if threshold == 0 || threshold > MAX_ORACLES {
        Some(TimlgError::InvalidThreshold)
    } else if initial.len() > MAX_ORACLES {
        Some(TimlgError::OracleSetFull)
    } else if initial.len() > 0 && threshold > initial.len() {
        Some(TimlgError::ThresholdExceedsOracleCount)
    } else {
        oracle_list_error(initial, 0)
    }
}

/// Creates the oracle allowlist: at most the maximum number of distinct,
/// set keys, with a positive threshold no larger than the list (when one
/// is given). Only the administrator may.
#[verifier::loop_isolation(false)]
pub fn initialize_oracle_set(cfg: &Config, admin: &Pubkey, threshold: u8, initial_oracles: Vec<Pubkey>) -> (r: Result<OracleSet, TimlgError>)
    ensures
        match init_oracle_set_error(*cfg, *admin, threshold, initial_oracles@) {
            Some(e) => r == Err::<OracleSet, TimlgError>(e),
            None => r matches Ok(os) && os.admin == cfg.admin && os.threshold == threshold
                && os.oracles@ == initial_oracles@ && os.version == 1,
        },
{
    if !(cfg.admin == *admin) {
        return Err(TimlgError::Unauthorized);
    }
    if threshold == 0 || threshold as usize > MAX_ORACLES {
        return Err(TimlgError::InvalidThreshold);
    }
    if initial_oracles.len() > MAX_ORACLES {
        return Err(TimlgError::OracleSetFull);
    }
    if initial_oracles.len() > 0 && threshold as usize > initial_oracles.len() {
        return Err(TimlgError::ThresholdExceedsOracleCount);
    }
    let mut i: usize = 0;
    while i < initial_oracles.len()
        invariant
            i <= initial_oracles@.len(),
            oracle_list_error(initial_oracles@, 0) == oracle_list_error(initial_oracles@, i as int),
        decreases initial_oracles@.len() - i,
    {
        let pk = initial_oracles[i];
        assert(oracle_list_error(initial_oracles@, i as int) == if is_unset(initial_oracles@[i as int]) {
            Some(TimlgError::OracleNotFound)
        } else if listed(initial_oracles@.take(i as int), initial_oracles@[i as int]) {
            Some(TimlgError::OracleAlreadyExists)
        } else {
            oracle_list_error(initial_oracles@, i + 1)
        });
        if pk.is_default() {
            return Err(TimlgError::OracleNotFound);
        }
        let mut j: usize = 0;
        while j < i
            invariant
                j <= i,
                i < initial_oracles@.len(),
                pk == initial_oracles@[i as int],
                !listed(initial_oracles@.take(i as int).take(j as int), pk),
            decreases i - j,
        {
            if initial_oracles[j] == pk {
                assert(initial_oracles@.take(i as int)[j as int] == initial_oracles@[j as int]);
                assert(listed(initial_oracles@.take(i as int), pk));
                return Err(TimlgError::OracleAlreadyExists);
            }
            assert(initial_oracles@.take(i as int).take(j + 1) =~= initial_oracles@.take(i as int).take(
                j as int,
            ).push(initial_oracles@[j as int]));
            j = j + 1;
        }
        assert(initial_oracles@.take(i as int).take(i as int) =~= initial_oracles@.take(i as int));
        i = i + 1;
    }
    Ok(OracleSet { admin: cfg.admin, threshold, oracles: initial_oracles, version: 1 })
}

/// Why adding `oracle` is refused, if it is.
pub open spec fn add_oracle_error(cfg: Config, os: OracleSet, admin: Pubkey, oracle: Pubkey) -> Option<TimlgError> {
    if cfg.admin@ != admin@ {
        Some(TimlgError::Unauthorized)
    } else if is_unset(oracle) {
        Some(TimlgError::OracleNotFound)
    } else if os.oracles@.len() >= MAX_ORACLES {
        Some(TimlgError::OracleSetFull)
    } else if listed(os.oracles@, oracle) {
        Some(TimlgError::OracleAlreadyExists)
    } else {
        None
    }
}

/// Adds a new, set key to the allowlist while it has room. Only the
/// administrator may.
pub fn add_oracle(cfg: &Config, os: &mut OracleSet, admin: &Pubkey, oracle: Pubkey) -> (r: Result<(), TimlgError>)
    ensures
        final(os).admin == old(os).admin,
        final(os).threshold == old(os).threshold,
        final(os).version == old(os).version,
        match add_oracle_error(*cfg, *old(os), *admin, oracle) {
            Some(e) => r == Err::<(), TimlgError>(e) && final(os).oracles@ == old(os).oracles@,
            None => r is Ok && final(os).oracles@ == old(os).oracles@.push(oracle),
        },
{
    if !(cfg.admin == *admin) {
        return Err(TimlgError::Unauthorized);
    }
    if oracle.is_default() {
        return Err(TimlgError::OracleNotFound);
    }
    if os.oracles.len() >= MAX_ORACLES {
        return Err(TimlgError::OracleSetFull);
    }
    if position_of(&os.oracles, &oracle).is_some() {
        return Err(TimlgError::OracleAlreadyExists);
    }
    os.oracles.push(oracle);
    Ok(())
}

/// Why removing `oracle` is refused, if it is.
pub open spec fn remove_oracle_error(cfg: Config, os: OracleSet, admin: Pubkey, oracle: Pubkey) -> Option<TimlgError> {
    if cfg.admin@ != admin@ {
        Some(TimlgError::Unauthorized)
    } else if !listed(os.oracles@, oracle) {
        Some(TimlgError::OracleNotFound)
    } else if os.threshold >= os.oracles@.len() {
        Some(TimlgError::ThresholdExceedsOracleCount)
    } else {
        None
    }
}

/// Removes `oracle` from the allowlist, keeping the others in order, unless
/// the threshold would then exceed the number of oracles. Only the
/// administrator may.
pub fn remove_oracle(cfg: &Config, os: &mut OracleSet, admin: &Pubkey, oracle: Pubkey) -> (r: Result<(), TimlgError>)
    ensures
        final(os).admin == old(os).admin,
        final(os).threshold == old(os).threshold,
        final(os).version == old(os).version,
        match remove_oracle_error(*cfg, *old(os), *admin, oracle) {
            Some(e) => r == Err::<(), TimlgError>(e) && final(os).oracles@ == old(os).oracles@,
            None => r is Ok && exists|i: int|
                0 <= i < old(os).oracles@.len() && (#[trigger] old(os).oracles@[i])@ == oracle@
                    && !listed(old(os).oracles@.take(i), oracle) && final(os).oracles@ == old(
                    os,
                ).oracles@.remove(i),
        },
{
    if !(cfg.admin == *admin) {
        return Err(TimlgError::Unauthorized);
    }
    let pos = match position_of(&os.oracles, &oracle) {
        Some(p) => p,
        None => {
            return Err(TimlgError::OracleNotFound);
        },
    };
    if os.threshold as usize >= os.oracles.len() {
        return Err(TimlgError::ThresholdExceedsOracleCount);
    }
    os.oracles.remove(pos);
    Ok(())
}

/// Why setting the threshold is refused, if it is.
pub open spec fn threshold_error(cfg: Config, os: OracleSet, admin: Pubkey, threshold: u8) -> Option<TimlgError> {
    if cfg.admin@ != admin@ {
        Some(TimlgError::Unauthorized)
    } else if threshold == 0 || threshold > MAX_ORACLES {
        Some(TimlgError::InvalidThreshold)
    } else if threshold > os.oracles@.len() {
        Some(TimlgError::ThresholdExceedsOracleCount)
    } else {
        None
    }
}

/// Sets the attestation threshold: positive, and no larger than the number
/// of oracles. Only the administrator may.
pub fn set_oracle_threshold(cfg: &Config, os: &mut OracleSet, admin: &Pubkey, threshold: u8) -> (r: Result<(), TimlgError>)
    ensures
        final(os).admin == old(os).admin,
        final(os).oracles@ == old(os).oracles@,
        final(os).version == old(os).version,
        match threshold_error(*cfg, *old(os), *admin, threshold) {
            Some(e) => r == Err::<(), TimlgError>(e) && final(os).threshold == old(os).threshold,
            None => r is Ok && final(os).threshold == threshold,
        },
{
    if !(cfg.admin == *admin) {
        return Err(TimlgError::Unauthorized);
    }
    if threshold == 0 || threshold as usize > MAX_ORACLES {
        return Err(TimlgError::InvalidThreshold);
    }
    if threshold as usize > os.oracles.len() {
        return Err(TimlgError::ThresholdExceedsOracleCount);
    }
    os.threshold = threshold;
    Ok(())
}

} // verus!
