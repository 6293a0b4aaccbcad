//! Shader programs: the compile-and-link state machine and its error
//! taxonomy.
//!
//! The driver compiles each stage and links the program; what it reports
//! back (a handle, a status word, a diagnostic log) is judged here. A
//! build goes Fresh, then each of the two stages is recorded, then the
//! link; a failed compile or link carries the driver's log out as a
//! described error, and the stage handles are handed back for deletion
//! after the link whether it succeeded or not — they are transient and
//! never reused.

use vstd::prelude::*;

verus! {

/// A linked shader program: the handle the driver returned for it.
#[derive(Clone, Copy, Debug, PartialEq, Eq, Structural)]
pub struct Shader {
    pub id: u32,
}

impl Shader {
    /// Wraps a program handle the driver allocated.
    pub fn new(id: u32) -> (s: Shader)
        requires
            id != 0,
        ensures
            s.id == id,
    {
        Shader { id }
    }
}

/// The two stages a program is built from.
#[derive(Clone, Copy, Debug, PartialEq, Eq, Structural)]
pub enum ShaderStage {
    Vertex,
    Fragment,
}

/// What the driver reported for one compile or link call: the handle it
/// worked on, its status word (zero means failure), and the diagnostic
/// log it captured.
#[derive(Debug)]
pub struct DriverReport {
    pub handle: u32,
    pub status: i32,
    pub log: Vec<u8>,
}

/// A stage failed to compile: which stage, and the driver's log.
#[derive(Debug)]
pub struct CompileError {
    pub stage: ShaderStage,
    pub log: Vec<u8>,
}

/// The program failed to link: the driver's log.
#[derive(Debug)]
pub struct LinkError {
    pub log: Vec<u8>,
}

/// A program build in progress: the stage handles recorded so far.
#[derive(Debug)]
pub struct ShaderBuilder {
    pub vertex: Option<u32>,
    pub fragment: Option<u32>,
}

impl ShaderBuilder {
    /// A fresh build: no stage compiled yet.
    pub fn new() -> (b: ShaderBuilder)
        ensures
            b.vertex is None,
            b.fragment is None,
    {
        ShaderBuilder { vertex: None, fragment: None }
    }

    /// Both stages are compiled and the build may link.
    pub open spec fn ready_to_link(self) -> bool {
        self.vertex is Some && self.fragment is Some
    }

    /// Judges one stage's compile report: a non-zero status records the
    /// stage handle; a zero status changes nothing and carries the
    /// stage and the driver's log out. Each stage is recorded at most
    /// once.
    pub fn record_compile(&mut self, stage: ShaderStage, report: DriverReport) -> (r: Result<
        (),
        CompileError,
    >)
        requires
            stage == ShaderStage::Vertex ==> old(self).vertex is None,
            stage == ShaderStage::Fragment ==> old(self).fragment is None,
        ensures
            report.status != 0 ==> {
                &&& r is Ok
                &&& stage == ShaderStage::Vertex ==> *final(self) == (ShaderBuilder {
                    vertex: Some(report.handle),
                    ..*old(self)
                })
                &&& stage == ShaderStage::Fragment ==> *final(self) == (ShaderBuilder {
                    fragment: Some(report.handle),
                    ..*old(self)
                })
            },
            report.status == 0 ==> {
                &&& *final(self) == *old(self)
                &&& r matches Err(e) && e.stage == stage && e.log@ == report.log@
            },
    {
        if report.status == 0 {
            return Err(CompileError { stage, log: report.log });
        }
        match stage {
            ShaderStage::Vertex => {
                self.vertex = Some(report.handle);
            },
            ShaderStage::Fragment => {
                self.fragment = Some(report.handle);
            },
        }
        Ok(())
    }

    /// Judges the link report once both stages are recorded. Returns
    /// the linked program on a non-zero status, or the driver's log as
    /// a link error; either way the two stage handles come back for the
    /// shell to delete — they are transient and never reused.
    pub fn finish_link(self, report: DriverReport) -> (r: (Result<Shader, LinkError>, (u32, u32)))
        requires
            self.ready_to_link(),
            report.handle != 0,
        ensures
            r.1 == (self.vertex->0, self.fragment->0),
            report.status != 0 ==> (r.0 matches Ok(s) && s.id == report.handle),
            report.status == 0 ==> (r.0 matches Err(e) && e.log@ == report.log@),
    {
        let vertex = match self.vertex {
            Some(h) => h,
            None => unreached(),
        };
        let fragment = match self.fragment {
            Some(h) => h,
            None => unreached(),
        };
        if report.status == 0 {
            (Err(LinkError { log: report.log }), (vertex, fragment))
        } else {
            (Ok(Shader { id: report.handle }), (vertex, fragment))
        }
    }
}

} // verus!
