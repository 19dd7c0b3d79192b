use pixi::blend::{Blend, BlendComponent, BlendFactor, BlendOperation};

fn add(src: BlendFactor, dst: BlendFactor) -> Blend {
    Blend::add(src, dst)
}

#[test]
fn add_uses_one_pair_for_both_channels() {
    let b = add(BlendFactor::One, BlendFactor::OneMinusSrcAlpha);
    assert_eq!(b.color, BlendComponent {
        src_factor: BlendFactor::One,
        dst_factor: BlendFactor::OneMinusSrcAlpha,
        operation: BlendOperation::Add,
    });
    assert_eq!(b.alpha, b.color);
}

#[test]
fn add_sep_keeps_channels_apart() {
    let b = Blend::add_sep(
        BlendFactor::DstColor,
        BlendFactor::OneMinusSrcAlpha,
        BlendFactor::One,
        BlendFactor::OneMinusSrcAlpha,
    );
    assert_eq!(b.color.src_factor, BlendFactor::DstColor);
    assert_eq!(b.alpha.src_factor, BlendFactor::One);
    assert_eq!(b.color.dst_factor, BlendFactor::OneMinusSrcAlpha);
    assert_eq!(b.alpha.dst_factor, BlendFactor::OneMinusSrcAlpha);
}

#[test]
fn porter_duff_table() {
    assert_eq!(Blend::replace(), add(BlendFactor::One, BlendFactor::Zero));
    assert_eq!(Blend::pma_src(), add(BlendFactor::One, BlendFactor::Zero));
    assert_eq!(Blend::pma_src_atop(), add(BlendFactor::DstAlpha, BlendFactor::OneMinusSrcAlpha));
    assert_eq!(Blend::pma_src_over(), add(BlendFactor::One, BlendFactor::OneMinusSrcAlpha));
    assert_eq!(Blend::pma_normal(), Blend::pma_src_over());
    assert_eq!(Blend::pma_src_in(), add(BlendFactor::DstAlpha, BlendFactor::Zero));
    assert_eq!(Blend::pma_src_out(), add(BlendFactor::OneMinusDstAlpha, BlendFactor::Zero));
    assert_eq!(Blend::pma_dst(), add(BlendFactor::Zero, BlendFactor::One));
    assert_eq!(Blend::pma_dst_atop(), add(BlendFactor::OneMinusDstAlpha, BlendFactor::SrcAlpha));
    assert_eq!(Blend::pma_dst_over(), add(BlendFactor::OneMinusDstAlpha, BlendFactor::One));
    assert_eq!(Blend::pma_dst_in(), add(BlendFactor::Zero, BlendFactor::SrcAlpha));
    assert_eq!(Blend::pma_dst_out(), add(BlendFactor::Zero, BlendFactor::OneMinusSrcAlpha));
    assert_eq!(
        Blend::pma_xor(),
        add(BlendFactor::OneMinusDstAlpha, BlendFactor::OneMinusSrcAlpha)
    );
    assert_eq!(Blend::pma_clear(), add(BlendFactor::Zero, BlendFactor::Zero));
    assert_eq!(Blend::pma_add(), add(BlendFactor::One, BlendFactor::One));
}

#[test]
fn separable_and_non_premultiplied_table() {
    assert_eq!(
        Blend::pma_mul(),
        Blend::add_sep(
            BlendFactor::DstColor,
            BlendFactor::OneMinusSrcAlpha,
            BlendFactor::One,
            BlendFactor::OneMinusSrcAlpha,
        )
    );
    assert_eq!(
        Blend::pma_screen(),
        Blend::add_sep(
            BlendFactor::One,
            BlendFactor::OneMinusSrcColor,
            BlendFactor::One,
            BlendFactor::OneMinusSrcAlpha,
        )
    );
    assert_eq!(
        Blend::npm_normal(),
        Blend::add_sep(
            BlendFactor::SrcAlpha,
            BlendFactor::OneMinusSrcAlpha,
            BlendFactor::One,
            BlendFactor::OneMinusSrcAlpha,
        )
    );
    assert_eq!(
        Blend::npm_add(),
        Blend::add_sep(BlendFactor::SrcAlpha, BlendFactor::One, BlendFactor::One, BlendFactor::One)
    );
    assert_eq!(
        Blend::npm_screen(),
        Blend::add_sep(
            BlendFactor::SrcAlpha,
            BlendFactor::OneMinusSrcColor,
            BlendFactor::One,
            BlendFactor::OneMinusSrcAlpha,
        )
    );
}

#[test]
fn every_operation_is_additive() {
    let all = [
        Blend::replace(),
        Blend::pma_normal(),
        Blend::pma_src(),
        Blend::pma_src_atop(),
        Blend::pma_src_over(),
        Blend::pma_src_in(),
        Blend::pma_src_out(),
        Blend::pma_dst(),
        Blend::pma_dst_atop(),
        Blend::pma_dst_over(),
        Blend::pma_dst_in(),
        Blend::pma_dst_out(),
        Blend::pma_xor(),
        Blend::pma_clear(),
        Blend::pma_add(),
        Blend::pma_mul(),
        Blend::pma_screen(),
        Blend::npm_normal(),
        Blend::npm_add(),
        Blend::npm_screen(),
    ];
    for b in all {
        assert_eq!(b.color.operation, BlendOperation::Add);
        assert_eq!(b.alpha.operation, BlendOperation::Add);
    }
}
