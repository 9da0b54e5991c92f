//! The remembered vault of the desktop shell: only the location of the last vault is
//! stored, never a password or an entry.
use vstd::prelude::*;

verus! {

/// The remembered vault as the picker shows it.
#[derive(Debug, Clone, PartialEq, Eq)]
pub struct RememberedVaultDto {
    pub path: String,
    pub display_name: String,
    pub available: bool,
}

/// The name shown for a remembered vault: its file name, or `Last vault` when the path has
/// none.
pub open spec fn display_name_of(file_name: Option<Seq<char>>) -> Seq<char> {
    match file_name {
        Some(n) => if n.len() > 0 {
            n
        } else {
            "Last vault"@
        },
        None => "Last vault"@,
    }
}

/// The remembered vault, if a path is stored: the path as stored, the name shown for it
/// (from the path's file name, as the file system reads it) and whether the file is still
/// there.
pub fn load_remembered_vault(remembered_vault_path: Option<String>, file_name: Option<String>, available: bool) -> (r: Option<RememberedVaultDto>)
    ensures
        remembered_vault_path is None <==> r is None,
        r matches Some(dto) ==> dto.path@ == remembered_vault_path->0@ && dto.display_name@
            == display_name_of(crate::text::opt_view(file_name)) && dto.available == available,
{
    match remembered_vault_path {
        None => None,
        Some(path) => {
            let display_name = match file_name {
                Some(name) => if name.as_str().unicode_len() > 0 {
                    name
                } else {
                    String::from_str("Last vault")
                },
                None => String::from_str("Last vault"),
            };
            Some(RememberedVaultDto { path, display_name, available })
        },
    }
}

} // verus!
