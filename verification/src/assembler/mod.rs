//! The assembler: from source text to a memory image.

pub mod ast;
pub mod emit;
pub mod error;
pub mod eval;
pub mod format;
pub mod layout;
pub mod lexer;
pub mod lines;
pub mod parser;
pub mod place;
pub mod resolve;
pub mod sections;
pub mod span;
pub mod text;

use crate::assembler::emit::{emit, spec_emit};
use crate::assembler::error::AssemblerError;
use crate::assembler::format::{expand_tabs, format_all, spec_expand_tabs, spec_format_all};
use crate::assembler::layout::{process_sections, spec_process_sections, spec_raw_views};
use crate::assembler::place::{process_file, Assembly, AssemblyModel, MAX_INCLUDE_DEPTH};
use crate::assembler::resolve::{evaluate_labels, spec_evaluate_labels};
use crate::assembler::span::{FileId, FileServer, SourceFileModel};
use crate::assembler::text::lemma_code_report_is_text;
use vstd::prelude::*;
use vstd::string::StringSliceAdditionalSpecFns;

verus! {

/// What the assembly of the file `file` comes to: the address of the first
/// byte and the bytes, or what is wrong with the program. The files are
/// read and their statements put into sections; the sections are laid
/// out; the labels are given their values; and if nothing was wrong so
/// far the bytes are written, which may still find a name that is no
/// label or a division by zero.
pub open spec fn spec_assemble(files: Seq<SourceFileModel>, file: FileId, allow_include: bool)
    -> Result<(u16, Seq<u8>), Seq<AssemblerError>> {
    let read = AssemblyModel::spec_new().process_file(
        files,
        file,
        allow_include,
        MAX_INCLUDE_DEPTH as nat,
    );
    let (sections, laid_out) = spec_process_sections(
        read.sections,
        match read.default_base {
            Some(base) => base,
            None => 0,
        },
        read.errors,
    );
    let (labels, errors) = spec_evaluate_labels(files, sections, read.labels, laid_out);
    if errors.len() > 0 {
        Err(errors)
    } else {
        let (start, emitted) = spec_emit(files, labels, sections);
        if emitted.errors.len() > 0 {
            Err(emitted.errors)
        } else {
            Ok((start, emitted.data))
        }
    }
}

/// Assembles the program whose first file is `file`.
pub fn assemble(files: &FileServer, file: FileId, allow_include: bool) -> (r: Result<
    (u16, Vec<u8>),
    Vec<AssemblerError>,
>)
    ensures
        match spec_assemble(files@, file, allow_include) {
            Ok((start, data)) => r.is_ok() && r.unwrap().0 == start && r.unwrap().1@ == data,
            Err(errors) => r.is_err() && r.unwrap_err()@ == errors,
        },
{
    let mut state = Assembly::new();
    process_file(files, file, &mut state, allow_include, MAX_INCLUDE_DEPTH);
    let Assembly { errors, sections, labels, current_section, default_base, halted } = state;
    let mut errors = errors;
    let mut labels = labels;
    let ghost read_sections = sections@;
    let raw = sections.into_sections();
    assert(spec_raw_views(raw@) =~= read_sections);
    let base = match default_base {
        Some(base) => base,
        None => 0,
    };
    let sections = process_sections(raw, base, &mut errors);
    evaluate_labels(files, &sections, &mut labels, &mut errors);
    if errors.len() > 0 {
        return Err(errors);
    }
    let (start, data, emitted) = emit(files, &labels, &sections);
    if emitted.len() > 0 {
        Err(emitted)
    } else {
        Ok((start, data))
    }
}

/// The name under which `assemble_code` registers its text.
pub open spec fn spec_code_path() -> Seq<u8> {
    "<code>".spec_bytes()
}

/// The file server that holds nothing but `code`, with its tabs expanded.
pub open spec fn spec_code_files(code: Seq<u8>) -> Seq<SourceFileModel> {
    seq![
        SourceFileModel { path: Seq::empty(), text: Seq::empty(), failed: false },
        SourceFileModel {
            path: spec_code_path(),
            text: spec_expand_tabs(code, code.len() as int),
            failed: false,
        },
    ]
}

/// Assembles the program `code`, in which a tab counts as four spaces.
/// Gives the address of the first byte and the bytes, or the diagnostics
/// as text: their bytes are UTF-8, and the text is what they encode.
pub fn assemble_code(code: &str, allow_include: bool) -> (r: Result<(u16, Vec<u8>), String>)
    ensures
        match spec_assemble(spec_code_files(code.spec_bytes()), FileId { index: 1 }, allow_include) {
            Ok((start, data)) => r.is_ok() && r.unwrap().0 == start && r.unwrap().1@ == data,
            Err(errors) => {
                let report = spec_format_all(
                    errors,
                    spec_code_files(code.spec_bytes()),
                    errors.len() as int,
                );
                &&& r.is_err()
                &&& vstd::utf8::valid_utf8(report)
                &&& r.unwrap_err()@ == vstd::utf8::decode_utf8(report)
            },
        },
{
    let text = expand_tabs(code.as_bytes());
    let mut files = FileServer::new();
    let registered = files.register_file_bytes("<code>".as_bytes(), text.as_slice());
    assert(files@ =~= spec_code_files(code.spec_bytes())) by {
        assert(files@.len() == 2);
        assert(files@[0].path =~= Seq::<u8>::empty());
        assert(files@[0].text =~= Seq::<u8>::empty());
    }
    let file = FileId { index: 1 };
    match assemble(&files, file, allow_include) {
        Ok(image) => Ok(image),
        Err(errors) => {
            let out = format_all(&errors, &files);
            proof {
                lemma_code_report_is_text(code@, errors@);
            }
            Err(crate::assembler::format::bytes_to_text(&out))
        },
    }
}

} // verus!
