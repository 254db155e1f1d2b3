//! The entries that put the program into the context menu of the file
//! manager: what is written to the registry, and what is removed again.
//! Writing and removing are the caller's part.

use crate::text::texts;
use vstd::prelude::*;

verus! {

/// One string value under a key of the current user's registry.
#[derive(Debug, PartialEq, Eq)]
pub struct RegistryValue {
    /// The path of the key.
    pub key: String,
    /// The name of the value; empty for the key's default value.
    pub name: String,
    pub data: String,
}

/// A [`RegistryValue`] as plain values.
pub struct RegistryValueView {
    pub key: Seq<char>,
    pub name: Seq<char>,
    pub data: Seq<char>,
}

impl View for RegistryValue {
    type V = RegistryValueView;

    open spec fn view(&self) -> RegistryValueView {
        RegistryValueView { key: self.key@, name: self.name@, data: self.data@ }
    }
}

/// The key of the menu entry shown on the background of an open directory.
pub open spec fn background_key() -> Seq<char> {
    "Software\\Classes\\Directory\\Background\\shell\\GitPop"@
}

/// The key of the menu entry shown on a directory.
pub open spec fn directory_key() -> Seq<char> {
    "Software\\Classes\\Directory\\shell\\GitPop"@
}

/// `s` between double quotes.
pub open spec fn quoted(s: Seq<char>) -> Seq<char> {
    "\""@ + s + "\""@
}

/// The values of one menu entry under `key`: its label, its icon, and the
/// command line that starts `exe` on what `placeholder` stands for.
pub open spec fn entry_values(key: Seq<char>, exe: Seq<char>, placeholder: Seq<char>) -> Seq<
    RegistryValueView,
> {
    seq![
        RegistryValueView { key, name: ""@, data: "GitPop Here"@ },
        RegistryValueView { key, name: "Icon"@, data: quoted(exe) },
        RegistryValueView {
            key: key + "\\command"@,
            name: ""@,
            data: quoted(exe) + " "@ + quoted(placeholder),
        },
    ]
}

/// Everything that installing the context menu for the executable `exe`
/// writes, in the order of writing.
pub open spec fn menu_values(exe: Seq<char>) -> Seq<RegistryValueView> {
    entry_values(background_key(), exe, "%V"@) + entry_values(directory_key(), exe, "%1"@)
}

/// The values of `v` as plain values.
pub open spec fn values_view(v: Seq<RegistryValue>) -> Seq<RegistryValueView> {
    v.map_values(|e: RegistryValue| e@)
}

fn quote(s: &str) -> (r: String)
    ensures
        r@ == quoted(s@),
{
    let mut out = String::from_str("\"");
    out.append(s);
    out.append("\"");
    out
}

fn push_entry(values: &mut Vec<RegistryValue>, key: &str, exe: &str, placeholder: &str)
    ensures
        values_view(final(values)@) == values_view(old(values)@) + entry_values(
            key@,
            exe@,
            placeholder@,
        ),
{
    let ghost before = values@;
    values.push(
        RegistryValue {
            key: String::from_str(key),
            name: String::from_str(""),
            data: String::from_str("GitPop Here"),
        },
    );
    values.push(
        RegistryValue {
            key: String::from_str(key),
            name: String::from_str("Icon"),
            data: quote(exe),
        },
    );
    let mut command_key = String::from_str(key);
    command_key.append("\\command");
    let mut command = quote(exe);
    command.append(" ");
    command.append(quote(placeholder).as_str());
    values.push(RegistryValue { key: command_key, name: String::from_str(""), data: command });
    assert(values_view(values@) =~= values_view(before) + entry_values(
        key@,
        exe@,
        placeholder@,
    ));
}

/// What installing the context menu for the executable at `exe` writes.
pub fn menu_entries(exe: &str) -> (r: Vec<RegistryValue>)
    ensures
        values_view(r@) == menu_values(exe@),
{
    let mut values: Vec<RegistryValue> = Vec::new();
    assert(values_view(values@) =~= Seq::empty());
    push_entry(&mut values, "Software\\Classes\\Directory\\Background\\shell\\GitPop", exe, "%V");
    push_entry(&mut values, "Software\\Classes\\Directory\\shell\\GitPop", exe, "%1");
    assert(values_view(values@) =~= menu_values(exe@));
    values
}

/// The keys that removing the context menu deletes, each with all below it.
pub fn menu_keys() -> (r: Vec<String>)
    ensures
        texts(r@) == seq![background_key(), directory_key()],
{
    let mut keys: Vec<String> = Vec::new();
    keys.push(String::from_str("Software\\Classes\\Directory\\Background\\shell\\GitPop"));
    keys.push(String::from_str("Software\\Classes\\Directory\\shell\\GitPop"));
    assert(texts(keys@) =~= seq![background_key(), directory_key()]);
    keys
}

} // verus!
