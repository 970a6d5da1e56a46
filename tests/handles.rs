use cairo::{Context, Error, NativeObjects, Surface};

const INVALID_SIZE: i32 = 32;

fn ready_context(objs: &mut NativeObjects) -> (Surface, Context) {
    let s = objs.create(0);
    let surface = Surface::from_raw_full(s);
    let ctx = Context::new(objs, &surface).expect("Can't create a context");
    (surface, ctx)
}

#[test]
fn invalid_surface_cant_create_context() {
    let mut objs = NativeObjects::new();
    let s = objs.create(INVALID_SIZE);
    let wrapped = Surface::from_raw_none(&mut objs, s);
    let r = Context::new(&mut objs, &wrapped);
    assert!(r.is_err());
    assert_eq!(r.err(), Some(Error::InvalidSize));
    // the context made in error was given back at once
    assert!(!objs.is_live(2));
    wrapped.drop(&mut objs);
    objs.destroy(s);
    assert!(!objs.is_live(s));
}

#[test]
fn new_context_holds_one_reference() {
    let mut objs = NativeObjects::new();
    let (surface, ctx) = ready_context(&mut objs);
    assert_eq!(ctx.reference_count(&objs), 1);
    assert_eq!(ctx.status(&objs), Ok(()));
    let p = ctx.to_raw_none();
    assert_eq!(p, 2);
    ctx.drop(&mut objs);
    assert!(!objs.is_live(p));
    surface.drop(&mut objs);
}

#[test]
fn from_raw_none_then_drop_restores_count() {
    let mut objs = NativeObjects::new();
    let (surface, ctx) = ready_context(&mut objs);
    let p = ctx.to_raw_none();
    let before = objs.get(p);
    let other = Context::from_raw_none(&mut objs, p);
    assert_eq!(other.reference_count(&objs), 2);
    other.drop(&mut objs);
    assert_eq!(objs.get(p), before);
    assert_eq!(ctx.reference_count(&objs), 1);
    ctx.drop(&mut objs);
    surface.drop(&mut objs);
}

#[test]
fn clone_takes_a_reference_and_both_release() {
    let mut objs = NativeObjects::new();
    let (surface, ctx) = ready_context(&mut objs);
    let p = ctx.to_raw_none();
    let twin = ctx.clone(&mut objs);
    assert_eq!(twin.to_raw_none(), p);
    assert_eq!(ctx.reference_count(&objs), 2);
    assert_eq!(twin.reference_count(&objs), 2);
    ctx.drop(&mut objs);
    assert!(objs.is_live(p));
    assert_eq!(twin.reference_count(&objs), 1);
    twin.drop(&mut objs);
    assert!(!objs.is_live(p));
    assert_eq!(objs.get(p).refcount, 0);
    surface.drop(&mut objs);
}

#[test]
fn borrow_takes_and_gives_nothing() {
    let mut objs = NativeObjects::new();
    let (surface, ctx) = ready_context(&mut objs);
    let p = ctx.to_raw_none();
    let borrowed = Context::from_raw_borrow(p);
    assert_eq!(borrowed.get().to_raw_none(), p);
    assert_eq!(borrowed.get().reference_count(&objs), 1);
    assert_eq!(borrowed.get().status(&objs), Ok(()));
    assert_eq!(ctx.reference_count(&objs), 1);
    ctx.drop(&mut objs);
    surface.drop(&mut objs);
}

#[test]
fn full_reference_handed_out_is_counted() {
    let mut objs = NativeObjects::new();
    let (surface, ctx) = ready_context(&mut objs);
    let raw = ctx.to_glib_full(&mut objs);
    assert_eq!(raw, ctx.to_raw_none());
    assert_eq!(ctx.reference_count(&objs), 2);
    let taken = Context::from_raw_full(raw);
    assert_eq!(taken.reference_count(&objs), 2);
    taken.drop(&mut objs);
    assert_eq!(ctx.reference_count(&objs), 1);
    ctx.drop(&mut objs);
    surface.drop(&mut objs);
}

#[test]
fn save_then_restore_succeeds() {
    let mut objs = NativeObjects::new();
    let (surface, ctx) = ready_context(&mut objs);
    let p = ctx.to_raw_none();
    let before = objs.get(p);
    assert_eq!(ctx.save(&mut objs), Ok(()));
    assert_eq!(ctx.save(&mut objs), Ok(()));
    assert_eq!(objs.get(p).depth, 2);
    assert_eq!(ctx.restore(&mut objs), Ok(()));
    assert_eq!(ctx.restore(&mut objs), Ok(()));
    assert_eq!(objs.get(p), before);
    ctx.drop(&mut objs);
    surface.drop(&mut objs);
}

#[test]
fn unmatched_restore_surfaces_error_and_sticks() {
    let mut objs = NativeObjects::new();
    let (surface, ctx) = ready_context(&mut objs);
    let p = ctx.to_raw_none();
    assert_eq!(ctx.restore(&mut objs), Err(Error::InvalidRestore));
    assert_eq!(ctx.status(&objs), Err(Error::InvalidRestore));
    assert_eq!(ctx.save(&mut objs), Err(Error::InvalidRestore));
    assert_eq!(objs.get(p).depth, 0);
    objs.set_error(p, Error::NoMemory);
    assert_eq!(ctx.status(&objs), Err(Error::InvalidRestore));
    ctx.drop(&mut objs);
    surface.drop(&mut objs);
}

#[test]
fn first_error_is_kept() {
    let mut objs = NativeObjects::new();
    let p = objs.create(0);
    objs.set_error(p, Error::InvalidDash);
    objs.set_error(p, Error::NoMemory);
    assert_eq!(objs.get(p).status, 19);
    let ctx = Context::from_raw_full(p);
    assert_eq!(ctx.status(&objs), Err(Error::InvalidDash));
    ctx.drop(&mut objs);
}

#[test]
fn error_surface_status() {
    let mut objs = NativeObjects::new();
    let s = objs.create(18);
    let surface = Surface::from_raw_full(s);
    assert_eq!(surface.status(&objs), Err(Error::FileNotFound));
    assert_eq!(surface.to_raw_none(), s);
    surface.drop(&mut objs);
    assert!(!objs.is_live(s));
}
