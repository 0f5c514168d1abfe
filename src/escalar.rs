//! Fixed-point scalars. A scalar is an `i64` counting millionths of a unit;
//! every operation saturates at `LIMITE`, which also stands for infinity.

use vstd::prelude::*;

verus! {

/// Raw units in one unit of length, color or intensity.
pub const UNO: i64 = 1_000_000;

/// Minus one unit.
pub const MENOS_UNO: i64 = -1_000_000;

/// Four units.
pub const CUATRO: i64 = 4_000_000;

/// Half a unit.
pub const MEDIO: i64 = 500_000;

/// Largest magnitude a scalar takes; results beyond it saturate.
pub const LIMITE: i64 = 1_000_000_000_000;

/// Largest integer square root the scalar range can ask for.
pub const RAIZ_TOPE: u64 = 1_000_000_001;

pub open spec fn saturar(x: int) -> int {
    if x > LIMITE {
        LIMITE as int
    } else if x < -LIMITE {
        -LIMITE
    } else {
        x
    }
}

pub open spec fn valor_absoluto(x: int) -> int {
    if x < 0 {
        -x
    } else {
        x
    }
}

/// Integer division that truncates toward zero, as Rust's `/` does.
pub open spec fn div_trunc(n: int, d: int) -> int {
    if d == 0 {
        0
    } else if (n >= 0) == (d > 0) {
        valor_absoluto(n) / valor_absoluto(d)
    } else {
        -(valor_absoluto(n) / valor_absoluto(d))
    }
}

pub open spec fn en_rango(x: int) -> bool {
    -LIMITE <= x <= LIMITE
}

pub open spec fn suma(a: i64, b: i64) -> i64 {
    saturar(a + b) as i64
}

pub open spec fn resta(a: i64, b: i64) -> i64 {
    saturar(a - b) as i64
}

pub open spec fn opuesto(a: i64) -> i64 {
    saturar(-a) as i64
}

/// The fixed-point product: the exact product scaled back, truncated.
pub open spec fn producto(a: i64, b: i64) -> i64 {
    saturar(div_trunc(a * b, UNO as int)) as i64
}

/// The fixed-point quotient; a division by zero gives the signed limit.
pub open spec fn cociente(a: i64, b: i64) -> i64 {
    if b == 0 {
        if a > 0 {
            LIMITE
        } else if a < 0 {
            (-LIMITE) as i64
        } else {
            0
        }
    } else {
        saturar(div_trunc(a * UNO, b as int)) as i64
    }
}

pub open spec fn es_raiz_entera(n: int, r: int) -> bool {
    0 <= r && r * r <= n < (r + 1) * (r + 1)
}

/// The integer square root of `n`, rounded down.
pub open spec fn raiz_entera(n: int) -> int {
    choose|r: int| es_raiz_entera(n, r)
}

/// The fixed-point square root; negative arguments give zero.
pub open spec fn raiz(a: i64) -> i64 {
    if a <= 0 {
        0
    } else {
        raiz_entera(saturar(a as int) * UNO) as i64
    }
}

pub open spec fn minimo(a: i64, b: i64) -> i64 {
    if a <= b {
        a
    } else {
        b
    }
}

pub open spec fn maximo(a: i64, b: i64) -> i64 {
    if a >= b {
        a
    } else {
        b
    }
}

pub open spec fn absoluto(a: i64) -> i64 {
    saturar(valor_absoluto(a as int)) as i64
}

proof fn lema_producto_acotado(x: int, y: int)
    requires
        -0x8000_0000_0000_0000 <= x <= 0x8000_0000_0000_0000,
        -0x8000_0000_0000_0000 <= y <= 0x8000_0000_0000_0000,
    ensures
        -0x4000_0000_0000_0000_0000_0000_0000_0000 <= x * y <= 0x4000_0000_0000_0000_0000_0000_0000_0000,
{
    let ax = valor_absoluto(x);
    let ay = valor_absoluto(y);
    assert(ax * ay <= 0x8000_0000_0000_0000 * 0x8000_0000_0000_0000) by (nonlinear_arith)
        requires
            0 <= ax <= 0x8000_0000_0000_0000,
            0 <= ay <= 0x8000_0000_0000_0000,
    ;
    assert(x * y == ax * ay || x * y == -(ax * ay)) by (nonlinear_arith)
        requires
            ax == valor_absoluto(x),
            ay == valor_absoluto(y),
    ;
}

fn saturar_i128(x: i128) -> (r: i64)
    ensures
        r == saturar(x as int),
{
    if x > LIMITE as i128 {
        LIMITE
    } else if x < -(LIMITE as i128) {
        -LIMITE
    } else {
        x as i64
    }
}

fn dividir_truncando(n: i128, d: i128) -> (q: i128)
    requires
        d != 0,
        -0x4000_0000_0000_0000_0000_0000_0000_0000 <= n <= 0x4000_0000_0000_0000_0000_0000_0000_0000,
        -0x4000_0000_0000_0000_0000_0000_0000_0000 < d < 0x4000_0000_0000_0000_0000_0000_0000_0000,
    ensures
        q == div_trunc(n as int, d as int),
{
    let an: u128 = if n >= 0 {
        n as u128
    } else {
        (-n) as u128
    };
    let ad: u128 = if d >= 0 {
        d as u128
    } else {
        (-d) as u128
    };
    let m: u128 = an / ad;
    assert(m <= an) by (nonlinear_arith)
        requires
            m == an / ad,
            ad >= 1,
    ;
    if (n >= 0) == (d > 0) {
        m as i128
    } else {
        -(m as i128)
    }
}

pub fn sumar(a: i64, b: i64) -> (r: i64)
    ensures
        r == suma(a, b),
{
    saturar_i128(a as i128 + b as i128)
}

pub fn restar(a: i64, b: i64) -> (r: i64)
    ensures
        r == resta(a, b),
{
    saturar_i128(a as i128 - b as i128)
}

pub fn negar(a: i64) -> (r: i64)
    ensures
        r == opuesto(a),
{
    saturar_i128(-(a as i128))
}

pub fn multiplicar(a: i64, b: i64) -> (r: i64)
    ensures
        r == producto(a, b),
{
    let x: i128 = a as i128;
    let y: i128 = b as i128;
    proof {
        lema_producto_acotado(x as int, y as int);
    }
    saturar_i128(dividir_truncando(x * y, UNO as i128))
}

pub fn dividir(a: i64, b: i64) -> (r: i64)
    ensures
        r == cociente(a, b),
{
    if b == 0 {
        if a > 0 {
            LIMITE
        } else if a < 0 {
            -LIMITE
        } else {
            0
        }
    } else {
        let x: i128 = a as i128;
        assert(-0x4000_0000_0000_0000_0000_0000_0000_0000 < x * 1_000_000 < 0x4000_0000_0000_0000_0000_0000_0000_0000)
            by (nonlinear_arith)
            requires
                -0x8000_0000_0000_0000 <= x < 0x8000_0000_0000_0000,
        ;
        saturar_i128(dividir_truncando(x * (UNO as i128), b as i128))
    }
}

pub fn min_escalar(a: i64, b: i64) -> (r: i64)
    ensures
        r == minimo(a, b),
{
    if a <= b {
        a
    } else {
        b
    }
}

pub fn max_escalar(a: i64, b: i64) -> (r: i64)
    ensures
        r == maximo(a, b),
{
    if a >= b {
        a
    } else {
        b
    }
}

pub fn valor_abs(a: i64) -> (r: i64)
    ensures
        r == absoluto(a),
{
    let x: i128 = a as i128;
    if x < 0 {
        saturar_i128(-x)
    } else {
        saturar_i128(x)
    }
}

/// Two integer roots of one number are the same.
pub proof fn lema_raiz_unica(n: int, r: int, s: int)
    requires
        es_raiz_entera(n, r),
        es_raiz_entera(n, s),
    ensures
        r == s,
{
    if r < s {
        assert((r + 1) * (r + 1) <= s * s) by (nonlinear_arith)
            requires
                0 <= r + 1 <= s,
        ;
    } else if s < r {
        assert((s + 1) * (s + 1) <= r * r) by (nonlinear_arith)
            requires
                0 <= s + 1 <= r,
        ;
    }
}

fn raiz_entera_exec(n: u64) -> (r: u64)
    requires
        n <= 1_000_000_000_000_000_000,
    ensures
        r == raiz_entera(n as int),
        r < RAIZ_TOPE,
{
    let mut lo: u64 = 0;
    let mut hi: u64 = RAIZ_TOPE;
    assert((RAIZ_TOPE as int) * (RAIZ_TOPE as int) > 1_000_000_000_000_000_000) by (nonlinear_arith);
    while hi - lo > 1
        invariant
            lo < hi <= RAIZ_TOPE,
            lo * lo <= n,
            n < hi * hi,
        decreases hi - lo,
    {
        let mid: u64 = lo + (hi - lo) / 2;
        assert(mid * mid <= RAIZ_TOPE * RAIZ_TOPE) by (nonlinear_arith)
            requires
                mid <= RAIZ_TOPE,
        ;
        if mid * mid <= n {
            lo = mid;
        } else {
            hi = mid;
        }
    }
    assert(es_raiz_entera(n as int, lo as int));
    proof {
        let c = raiz_entera(n as int);
        lema_raiz_unica(n as int, c, lo as int);
    }
    lo
}

pub fn raiz_cuadrada(a: i64) -> (r: i64)
    ensures
        r == raiz(a),
        0 <= r <= LIMITE,
{
    if a <= 0 {
        0
    } else {
        let s: i64 = if a > LIMITE {
            LIMITE
        } else {
            a
        };
        assert((s as int) * 1_000_000 <= 1_000_000_000_000_000_000) by (nonlinear_arith)
            requires
                0 < s <= LIMITE,
        ;
        let n: u64 = (s as u64) * (UNO as u64);
        let q: u64 = raiz_entera_exec(n);
        q as i64
    }
}

} // verus!

verus! {

proof fn lema_div_trunc_monotona(n1: int, n2: int, d: int)
    requires
        n1 <= n2,
        d > 0,
    ensures
        div_trunc(n1, d) <= div_trunc(n2, d),
{
    if n1 >= 0 {
        vstd::arithmetic::div_mod::lemma_div_is_ordered(n1, n2, d);
    } else if n2 >= 0 {
        vstd::arithmetic::div_mod::lemma_div_pos_is_pos(-n1, d);
        vstd::arithmetic::div_mod::lemma_div_pos_is_pos(n2, d);
    } else {
        vstd::arithmetic::div_mod::lemma_div_is_ordered(-n2, -n1, d);
    }
}

/// Multiplying by a non-negative scalar keeps order.
pub proof fn lema_producto_monotono(a: i64, b1: i64, b2: i64)
    requires
        a >= 0,
        b1 <= b2,
    ensures
        producto(a, b1) <= producto(a, b2),
{
    assert(a * b1 <= a * b2) by (nonlinear_arith)
        requires
            a >= 0,
            b1 <= b2,
    ;
    lema_div_trunc_monotona(a * b1, a * b2, UNO as int);
}

} // verus!

verus! {

proof fn lema_div_exacta(q: int, d: int)
    requires
        d > 0,
    ensures
        div_trunc(d * q, d) == q,
{
    vstd::arithmetic::div_mod::lemma_div_multiples_vanish(q, d);
    if q < 0 {
        assert(-(d * q) == d * (-q)) by (nonlinear_arith);
        assert(d * q < 0) by (nonlinear_arith)
            requires
                d > 0,
                q < 0,
        ;
        vstd::arithmetic::div_mod::lemma_div_multiples_vanish(-q, d);
    } else {
        assert(d * q >= 0) by (nonlinear_arith)
            requires
                d > 0,
                q >= 0,
        ;
    }
}

/// A product that is an exact multiple of the unit loses nothing.
pub proof fn lema_producto_exacto(a: i64, b: i64, q: int)
    requires
        a * b == UNO * q,
        en_rango(q),
    ensures
        producto(a, b) == q,
{
    lema_div_exacta(q, UNO as int);
}

/// A quotient that comes out exact loses nothing.
pub proof fn lema_cociente_exacto(a: i64, b: i64, q: int)
    requires
        b != 0,
        a * UNO == b * q,
        en_rango(q),
    ensures
        cociente(a, b) == q,
{
    if b > 0 {
        lema_div_exacta(q, b as int);
    } else {
        assert(a * UNO == (-b) * (-q)) by (nonlinear_arith)
            requires
                a * UNO == b * q,
        ;
        lema_div_exacta(-q, -b as int);
        if q > 0 {
            assert((-b) * (-q) < 0) by (nonlinear_arith)
                requires
                    b < 0,
                    q > 0,
            ;
        } else {
            assert((-b) * (-q) >= 0) by (nonlinear_arith)
                requires
                    b < 0,
                    q <= 0,
            ;
        }
    }
}

/// A square root that comes out exact loses nothing.
pub proof fn lema_raiz_exacta(a: i64, q: int)
    requires
        0 < a <= LIMITE,
        q >= 0,
        q * q == a * UNO,
    ensures
        raiz(a) == q,
{
    let n: int = a * UNO;
    assert(n < (q + 1) * (q + 1)) by (nonlinear_arith)
        requires
            q * q == n,
            q >= 0,
    ;
    assert(es_raiz_entera(n, q));
    lema_raiz_unica(n, raiz_entera(n), q);
    assert(q <= 1_000_000_000) by (nonlinear_arith)
        requires
            q * q == n,
            n <= 1_000_000_000_000_000_000,
            q >= 0,
    ;
}

} // verus!
