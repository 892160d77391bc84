//! An in-memory model of Unix-style permissions and ownership: permission
//! sets over {read, write, execute}, users, groups, files and directories,
//! together with the mutation operations that keep the collections
//! consistent (unique file names, idempotent removal, insertion order).

pub mod arquivo;
pub mod diretorio;
pub mod erros;
pub mod permissoes;
pub mod texto;
pub mod usuarios;
