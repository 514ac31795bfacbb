use pamext::env::EnvList;
use pamext::status::PamError;

#[test]
fn putenv_set_then_getenv() {
    let mut e = EnvList::new();
    assert_eq!(e.putenv("FOO=bar"), Ok(()));
    assert_eq!(e.getenv("FOO"), Ok(Some(&b"bar"[..])));
}

#[test]
fn putenv_set_empty_then_getenv() {
    let mut e = EnvList::new();
    assert_eq!(e.putenv("FOO=bar"), Ok(()));
    assert_eq!(e.putenv("FOO="), Ok(()));
    assert_eq!(e.getenv("FOO"), Ok(Some(&b""[..])));
}

#[test]
fn putenv_unset_then_getenv() {
    let mut e = EnvList::new();
    assert_eq!(e.putenv("FOO=bar"), Ok(()));
    assert_eq!(e.putenv("FOO"), Ok(()));
    assert_eq!(e.getenv("FOO"), Ok(None));
}

#[test]
fn putenv_value_keeps_later_equals() {
    let mut e = EnvList::new();
    assert_eq!(e.putenv("A=b=c"), Ok(()));
    assert_eq!(e.getenv("A"), Ok(Some(&b"b=c"[..])));
    assert_eq!(e.getenv("A=b"), Ok(None));
}

#[test]
fn putenv_keeps_other_names() {
    let mut e = EnvList::new();
    assert_eq!(e.putenv("A=1"), Ok(()));
    assert_eq!(e.putenv("B=2"), Ok(()));
    assert_eq!(e.putenv("C=3"), Ok(()));
    assert_eq!(e.putenv("A"), Ok(()));
    assert_eq!(e.putenv("B=22"), Ok(()));
    assert_eq!(e.getenv("A"), Ok(None));
    assert_eq!(e.getenv("B"), Ok(Some(&b"22"[..])));
    assert_eq!(e.getenv("C"), Ok(Some(&b"3"[..])));
}

#[test]
fn putenv_errors() {
    let mut e = EnvList::new();
    assert_eq!(e.putenv("MISSING"), Err(PamError::BAD_ITEM));
    assert_eq!(e.putenv("=value"), Err(PamError::BAD_ITEM));
    assert_eq!(e.putenv(""), Err(PamError::BAD_ITEM));
    assert_eq!(e.putenv("A=\0"), Err(PamError::SERVICE_ERR));
    assert_eq!(e.getenv("A"), Ok(None));
    assert_eq!(e.getenv("A\0"), Err(PamError::SERVICE_ERR));
}
