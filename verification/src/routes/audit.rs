//! Building the audit-log query filter from the request parameters.

use vstd::prelude::*;

use crate::utils::join_iter;
use crate::utils::spec_join;

verus! {

/// The filters an audit-log request may carry.
pub struct AuditLogQuery {
    pub account_id: Option<i64>,
    pub before: Option<i64>,
    pub after: Option<i64>,
}

impl AuditLogQuery {
    /// The filter clauses the query asks for, in their fixed order.
    pub open spec fn spec_filters(self) -> Seq<Seq<char>> {
        let by_account: Seq<Seq<char>> = if self.account_id is Some {
            seq!["audit_log.account_id = ?"@]
        } else {
            Seq::empty()
        };
        let by_before: Seq<Seq<char>> = if self.before is Some {
            seq!["audit_log.id < ?"@]
        } else {
            Seq::empty()
        };
        let by_after: Seq<Seq<char>> = if self.after is Some {
            seq!["audit_log.id > ?"@]
        } else {
            Seq::empty()
        };
        by_account + by_before + by_after
    }

    /// The parameters that go with the clauses, in the same order.
    pub open spec fn spec_params(self) -> Seq<i64> {
        let by_account: Seq<i64> = match self.account_id {
            Some(v) => seq![v],
            None => Seq::empty(),
        };
        let by_before: Seq<i64> = match self.before {
            Some(v) => seq![v],
            None => Seq::empty(),
        };
        let by_after: Seq<i64> = match self.after {
            Some(v) => seq![v],
            None => Seq::empty(),
        };
        by_account + by_before + by_after
    }

    /// Renders the query as a SQL filter (clauses joined by ` AND `; the
    /// empty string when no filter was given) and its parameter list.
    pub fn to_sql(&self) -> (r: (String, Vec<i64>))
        ensures
            r.0@ == spec_join(self.spec_filters(), " AND "@),
            r.1@ == self.spec_params(),
    {
        let mut filters: Vec<String> = Vec::new();
        let mut params: Vec<i64> = Vec::new();
        if let Some(account_id) = self.account_id {
            filters.push(String::from_str("audit_log.account_id = ?"));
            params.push(account_id);
        }
        if let Some(before) = self.before {
            filters.push(String::from_str("audit_log.id < ?"));
            params.push(before);
        }
        if let Some(after) = self.after {
            filters.push(String::from_str("audit_log.id > ?"));
            params.push(after);
        }
        proof {
            assert(filters@.map_values(|s: String| s@) =~= self.spec_filters());
            assert(params@ =~= self.spec_params());
        }
        let text = join_iter(" AND ", &filters);
        (text, params)
    }

    /// The complete audit-log query: the joined rows, the filter when one
    /// was given, newest entries first, at most a hundred of them.
    pub fn full_query(&self) -> (r: (String, Vec<i64>))
        ensures
            r.1@ == self.spec_params(),
            r.0@ == "SELECT audit_log.*, account.name AS account_name FROM audit_log LEFT JOIN account ON account.id = audit_log.account_id "@
                + (if spec_join(self.spec_filters(), " AND "@).len() == 0 {
                Seq::<char>::empty()
            } else {
                "WHERE "@ + spec_join(self.spec_filters(), " AND "@)
            }) + " ORDER BY audit_log.id DESC LIMIT 100"@,
    {
        let (filter, params) = self.to_sql();
        let mut query = String::from_str(
            "SELECT audit_log.*, account.name AS account_name FROM audit_log LEFT JOIN account ON account.id = audit_log.account_id ",
        );
        if !filter.as_str().is_empty() {
            query.append("WHERE ");
            query.append(filter.as_str());
        }
        query.append(" ORDER BY audit_log.id DESC LIMIT 100");
        proof {
            if filter@.len() != 0 {
                assert(query@ =~= "SELECT audit_log.*, account.name AS account_name FROM audit_log LEFT JOIN account ON account.id = audit_log.account_id "@
                    + ("WHERE "@ + spec_join(self.spec_filters(), " AND "@))
                    + " ORDER BY audit_log.id DESC LIMIT 100"@);
            } else {
                assert(query@ =~= "SELECT audit_log.*, account.name AS account_name FROM audit_log LEFT JOIN account ON account.id = audit_log.account_id "@
                    + Seq::<char>::empty() + " ORDER BY audit_log.id DESC LIMIT 100"@);
            }
        }
        (query, params)
    }
}

} // verus!
