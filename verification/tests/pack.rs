use libgit2_sys as ffi;
use libgit2::pack::{
    GitPackbuilderForeachCallback, GitPackbuilderProgressCallback, GitPackbuilderStage,
};

struct Chunks(Vec<u8>);

impl GitPackbuilderForeachCallback for Chunks {
    fn call(&mut self, buffer: &[u8]) -> i32 {
        self.0.extend_from_slice(buffer);
        buffer.len() as i32
    }
}

struct Progress;

impl GitPackbuilderProgressCallback for Progress {
    fn call(&mut self, stage: GitPackbuilderStage, current: u32, total: u32) -> i32 {
        stage.as_raw() as i32 + current as i32 + total as i32
    }
}

#[test]
fn callback_surfaces_preserve_arguments_and_results() {
    let bytes = [1u8, 2, 3];
    let mut chunks = Chunks(Vec::new());
    assert_eq!(GitPackbuilderForeachCallback::call(&mut chunks, &bytes), 3);
    assert_eq!(chunks.0, vec![1, 2, 3]);

    let mut progress = Progress;
    assert_eq!(
        GitPackbuilderProgressCallback::call(
            &mut progress,
            GitPackbuilderStage::Deltafication,
            2,
            3,
        ),
        6
    );
}

#[test]
fn stages_are_checked_against_the_c_scalars() {
    assert_eq!(
        GitPackbuilderStage::from_raw(ffi::GIT_PACKBUILDER_ADDING_OBJECTS as u32),
        Some(GitPackbuilderStage::AddingObjects)
    );
    assert_eq!(
        GitPackbuilderStage::from_raw(ffi::GIT_PACKBUILDER_DELTAFICATION as u32),
        Some(GitPackbuilderStage::Deltafication)
    );
    assert_eq!(GitPackbuilderStage::from_raw(2), None);
    assert_eq!(GitPackbuilderStage::Deltafication.as_raw(), 1);
    assert_eq!(GitPackbuilderStage::AddingObjects.as_raw(), 0);
}
