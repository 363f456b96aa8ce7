//! The built-in prompts the server advertises: a static catalogue and
//! a lookup by name.

use vstd::prelude::*;

use crate::strutil::str_eq;

verus! {

/// A named prompt with its description and content.
#[derive(Clone, Copy, Debug)]
pub struct PromptDef {
    pub name: &'static str,
    pub description: &'static str,
    pub content: &'static str,
}

/// The built-in prompt catalogue: common backend models and the
/// domain-filter syntax guide.
pub fn builtin_prompts() -> (r: Vec<PromptDef>)
    ensures
        r@.len() == 2,
        r@[0].name@ == "odoo_common_models"@,
        r@[0].description@ == "List of commonly used Odoo models"@,
        r@[1].name@ == "odoo_domain_filters"@,
        r@[1].description@ == "Guide for Odoo domain filter syntax"@,
{
    let mut prompts: Vec<PromptDef> = Vec::new();
    prompts.push(PromptDef {
        name: "odoo_common_models",
        description: "List of commonly used Odoo models",
        content: "\n# Common Odoo Models (v17-19)\n\n## Sales & CRM\n- sale.order - Sales Orders\n- sale.order.line - Sales Order Lines\n- crm.lead - CRM Leads/Opportunities\n- crm.team - Sales Teams\n\n## Accounting & Invoicing\n- account.move - Invoices & Bills\n- account.move.line - Invoice/Bill Lines\n- account.payment - Payments\n- account.journal - Journals\n- account.account - Chart of Accounts\n\n## Inventory & Manufacturing\n- stock.picking - Transfers\n- stock.move - Stock Moves\n- stock.warehouse - Warehouses\n- stock.location - Locations\n- product.product - Products (variants)\n- product.template - Product Templates\n\n## Partners & Contacts\n- res.partner - Contacts/Customers/Vendors\n- res.company - Companies\n- res.users - Users\n\n## HR & Employees\n- hr.employee - Employees\n- hr.department - Departments\n- hr.leave - Time Off\n\n## Projects & Tasks\n- project.project - Projects\n- project.task - Tasks\n\n## Purchase\n- purchase.order - Purchase Orders\n- purchase.order.line - Purchase Order Lines\n",
    });
    prompts.push(PromptDef {
        name: "odoo_domain_filters",
        description: "Guide for Odoo domain filter syntax",
        content: "\n# Odoo Domain Filter Examples\n\n## Basic Operators\n- ['name', '=', 'John'] - Exact match\n- ['name', '!=', 'John'] - Not equal\n- ['age', '>', 18] - Greater than\n- ['age', '>=', 18] - Greater than or equal\n- ['age', '<', 65] - Less than\n- ['age', '<=', 65] - Less than or equal\n\n## String Operators\n- ['name', 'like', 'John'] - Contains (case-sensitive)\n- ['name', 'ilike', 'john'] - Contains (case-insensitive)\n- ['email', '=like', '%@example.com'] - Pattern match\n- ['name', '=ilike', 'john%'] - Pattern match (case-insensitive)\n\n## List Operators\n- ['state', 'in', ['draft', 'posted']] - In list\n- ['state', 'not in', ['cancel', 'draft']] - Not in list\n\n## Logical Operators\n- ['&', ['name', '=', 'John'], ['age', '>', 18]] - AND\n- ['|', ['name', '=', 'John'], ['name', '=', 'Jane']] - OR\n- ['!', ['state', '=', 'cancel']] - NOT\n\n## Complex Example\n[\n  '&',\n  ['state', '=', 'sale'],\n  '|',\n  ['amount_total', '>', 1000],\n  ['partner_id.country_id.code', '=', 'US']\n]\n",
    });
    prompts
}

/// Look a prompt up by name; `None` for names the catalogue lacks.
pub fn find_prompt(name: &str) -> (r: Option<PromptDef>)
    ensures
        r.is_some() == (name@ == "odoo_common_models"@ || name@ == "odoo_domain_filters"@),
        r matches Some(p) ==> p.name@ == name@,
{
    let prompts = builtin_prompts();
    let n = prompts.len();
    let mut i: usize = 0;
    #[verifier::loop_isolation(false)]
    while i < n
        invariant
            i <= n,
            forall|k: int| 0 <= k < i ==> prompts@[k].name@ != name@,
        decreases n - i,
    {
        if str_eq(prompts[i].name, name) {
            return Some(prompts[i]);
        }
        i += 1;
    }
    None
}

} // verus!
