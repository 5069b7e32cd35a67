//! Order construction: the builder accumulates the caller's fields, one
//! validating step checks them all and derives the amounts, the salt and the
//! addresses of an unsigned order.

use crate::amounts::{scaled_amount, scaled_amount_spec, MICRO};
use crate::errors::{OrderField, ValidationError};
use vstd::prelude::*;

verus! {

/// Which side of the book the order rests on.
#[derive(Clone, Copy, Debug, PartialEq, Eq, Structural)]
pub enum Side {
    Buy,
    Sell,
}

/// Time-in-force of an order.
#[derive(Clone, Copy, Debug, PartialEq, Eq, Structural)]
pub enum OrderType {
    GTC,
    GTD,
    FOK,
    FAK,
}

/// How the exchange resolves the fund-owning address from the signature;
/// opaque pass-through configuration.
#[derive(Clone, Copy, Debug, PartialEq, Eq, Structural)]
pub enum SignatureType {
    Eoa,
    Proxy,
    GnosisSafe,
}

/// The signature type a wire code names: 0, 1 and 2 in declaration order,
/// anything else refused.
pub open spec fn signature_type_of_code(code: u8) -> Option<SignatureType> {
    if code == 0 {
        Some(SignatureType::Eoa)
    } else if code == 1 {
        Some(SignatureType::Proxy)
    } else if code == 2 {
        Some(SignatureType::GnosisSafe)
    } else {
        None
    }
}

impl SignatureType {
    /// Decodes the wire code of a signature type; any unknown code is
    /// refused.
    pub fn from_code(code: u8) -> (r: Option<SignatureType>)
        ensures
            r == signature_type_of_code(code),
    {
        match code {
            0 => Some(SignatureType::Eoa),
            1 => Some(SignatureType::Proxy),
            2 => Some(SignatureType::GnosisSafe),
            _ => None,
        }
    }

    /// The wire code of this signature type.
    pub fn code(&self) -> (r: u8)
        ensures
            signature_type_of_code(r) == Some(*self),
    {
        match self {
            SignatureType::Eoa => 0,
            SignatureType::Proxy => 1,
            SignatureType::GnosisSafe => 2,
        }
    }
}

/// A fully derived order, ready for digesting and signing.
#[derive(Clone, Debug)]
pub struct UnsignedOrder {
    pub token_id: String,
    pub side: Side,
    /// Price in micro-units, strictly between 0 and one whole unit.
    pub price_micro: u64,
    /// Size in micro-units, strictly positive.
    pub size_micro: u64,
    pub order_type: OrderType,
    /// Expiry timestamp, present whenever `order_type` is `GTD`.
    pub expiration: Option<u64>,
    pub fee_rate_bps: u64,
    /// The signer's 20-byte address.
    pub maker: Vec<u8>,
    /// The counterparty's 20-byte address; all zeroes means anyone.
    pub taker: Vec<u8>,
    pub signature_type: SignatureType,
    /// 32 bytes of salt, fresh per order.
    pub salt: Vec<u8>,
    pub maker_amount: u64,
    pub taker_amount: u64,
}

impl UnsignedOrder {
    /// Internal consistency of a built order: field ranges hold and both
    /// amounts come from the one rounding rule.
    pub open spec fn wf(&self) -> bool {
        &&& self.token_id@.len() > 0
        &&& 0 < self.price_micro < MICRO
        &&& self.size_micro > 0
        &&& (self.order_type is GTD ==> self.expiration is Some)
        &&& self.maker@.len() == 20
        &&& self.taker@.len() == 20
        &&& self.salt@.len() == 32
        &&& self.maker_amount == scaled_amount_spec(self.price_micro, self.size_micro)
        &&& self.taker_amount == scaled_amount_spec(self.price_micro, self.size_micro)
    }
}

/// Accumulates order fields; `token_id`, `side`, `price` and `size` are
/// mandatory at creation, the rest carry stated defaults until overridden.
#[derive(Clone, Debug)]
pub struct OrderBuilder {
    pub token_id: String,
    pub side: Side,
    pub price_micro: u64,
    pub size_micro: u64,
    pub order_type: OrderType,
    pub expiration: Option<u64>,
    pub fee_rate_bps: u64,
    pub taker: Option<Vec<u8>>,
}

impl OrderBuilder {
    /// Starts a builder from the mandatory fields; time-in-force defaults to
    /// `GTC`, the fee rate to zero, the taker to the zero address.
    pub fn new(token_id: String, side: Side, price_micro: u64, size_micro: u64) -> (r:
        OrderBuilder)
        ensures
            r == (OrderBuilder {
                token_id,
                side,
                price_micro,
                size_micro,
                order_type: OrderType::GTC,
                expiration: None::<u64>,
                fee_rate_bps: 0u64,
                taker: None::<Vec<u8>>,
            }),
    {
        OrderBuilder {
            token_id,
            side,
            price_micro,
            size_micro,
            order_type: OrderType::GTC,
            expiration: None,
            fee_rate_bps: 0,
            taker: None,
        }
    }

    /// Overrides the time-in-force.
    pub fn order_type(self, order_type: OrderType) -> (r: OrderBuilder)
        ensures
            r == (OrderBuilder { order_type, ..self }),
    {
        OrderBuilder { order_type, ..self }
    }

    /// Sets the expiry timestamp.
    pub fn expiration(self, expiration: u64) -> (r: OrderBuilder)
        ensures
            r == (OrderBuilder { expiration: Some(expiration), ..self }),
    {
        OrderBuilder { expiration: Some(expiration), ..self }
    }

    /// Overrides the fee rate in basis points.
    pub fn fee_rate_bps(self, fee_rate_bps: u64) -> (r: OrderBuilder)
        ensures
            r == (OrderBuilder { fee_rate_bps, ..self }),
    {
        OrderBuilder { fee_rate_bps, ..self }
    }

    /// Names an explicit counterparty in place of the zero address.
    pub fn taker(self, taker: Vec<u8>) -> (r: OrderBuilder)
        requires
            taker@.len() == 20,
        ensures
            r == (OrderBuilder { taker: Some(taker), ..self }),
    {
        OrderBuilder { taker: Some(taker), ..self }
    }

    /// The violated fields of this builder, in a fixed order; empty exactly
    /// when the builder is valid.
    pub open spec fn violations(&self) -> Seq<OrderField> {
        let s0 = Seq::<OrderField>::empty();
        let s1 = if self.token_id@.len() == 0 {
            s0.push(OrderField::TokenId)
        } else {
            s0
        };
        let s2 = if self.price_micro == 0 || self.price_micro >= MICRO {
            s1.push(OrderField::Price)
        } else {
            s1
        };
        let s3 = if self.size_micro == 0 {
            s2.push(OrderField::Size)
        } else {
            s2
        };
        if self.order_type is GTD && self.expiration is None {
            s3.push(OrderField::Expiration)
        } else {
            s3
        }
    }

    /// Checks every field and reports every violated one, in the fixed
    /// order, not only the first.
    pub fn validate(&self) -> (r: Result<(), Vec<ValidationError>>)
        ensures
            r is Ok <==> self.violations().len() == 0,
            r matches Err(e) ==> e@.map_values(|v: ValidationError| v.field)
                =~= self.violations(),
    {
        let mut errs: Vec<ValidationError> = Vec::new();
        if self.token_id.as_str().is_empty() {
            errs.push(ValidationError {
                field: OrderField::TokenId,
                reason: "token_id must not be empty".to_owned(),
            });
        }
        if self.price_micro == 0 || self.price_micro >= MICRO {
            errs.push(ValidationError {
                field: OrderField::Price,
                reason: "price must lie strictly between 0 and 1".to_owned(),
            });
        }
        if self.size_micro == 0 {
            errs.push(ValidationError {
                field: OrderField::Size,
                reason: "size must be strictly positive".to_owned(),
            });
        }
        if matches!(self.order_type, OrderType::GTD) && self.expiration.is_none() {
            errs.push(ValidationError {
                field: OrderField::Expiration,
                reason: "a GTD order needs an expiration".to_owned(),
            });
        }
        if errs.len() > 0 {
            proof {
                assert(errs@.map_values(|v: ValidationError| v.field) =~= self.violations());
            }
            return Err(errs);
        }
        Ok(())
    }

    /// Validates every field and derives the amounts. Succeeds exactly when
    /// no field is violated; on failure every violated field is reported, in
    /// the fixed order, not only the first.
    pub fn build_with_salt(
        &self,
        maker: &Vec<u8>,
        signature_type: SignatureType,
        salt: Vec<u8>,
    ) -> (r: Result<UnsignedOrder, Vec<ValidationError>>)
        requires
            maker@.len() == 20,
            salt@.len() == 32,
            self.taker matches Some(t) ==> t@.len() == 20,
        ensures
            r is Ok <==> self.violations().len() == 0,
            r matches Ok(o) ==> {
                &&& o.wf()
                &&& o.token_id@ == self.token_id@
                &&& o.side == self.side
                &&& o.price_micro == self.price_micro
                &&& o.size_micro == self.size_micro
                &&& o.order_type == self.order_type
                &&& o.expiration == self.expiration
                &&& o.fee_rate_bps == self.fee_rate_bps
                &&& o.maker@ == maker@
                &&& (match self.taker {
                    Some(t) => o.taker@ == t@,
                    None => o.taker@ == Seq::<u8>::new(20, |i: int| 0u8),
                })
                &&& o.signature_type == signature_type
                &&& o.salt@ == salt@
                &&& o.maker_amount == scaled_amount_spec(self.price_micro, self.size_micro)
                &&& o.taker_amount == scaled_amount_spec(self.price_micro, self.size_micro)
            },
            r matches Err(e) ==> e@.map_values(|v: ValidationError| v.field)
                =~= self.violations(),
    {
        match self.validate() {
            Ok(()) => {},
            Err(errs) => {
                return Err(errs);
            },
        }
        let amount = scaled_amount(self.price_micro, self.size_micro);
        let taker: Vec<u8> = match &self.taker {
            Some(t) => t.clone(),
            None => zero_address(),
        };
        Ok(UnsignedOrder {
            token_id: self.token_id.clone(),
            side: self.side,
            price_micro: self.price_micro,
            size_micro: self.size_micro,
            order_type: self.order_type,
            expiration: self.expiration,
            fee_rate_bps: self.fee_rate_bps,
            maker: maker.clone(),
            taker,
            signature_type,
            salt,
            maker_amount: amount,
            taker_amount: amount,
        })
    }
}

/// The 20-byte zero address, the default counterparty.
pub fn zero_address() -> (r: Vec<u8>)
    ensures
        r@ == Seq::<u8>::new(20, |i: int| 0u8),
{
    let mut v: Vec<u8> = Vec::new();
    let mut k: usize = 0;
    while k < 20
        invariant
            k <= 20,
            v@ =~= Seq::<u8>::new(k as nat, |i: int| 0u8),
        decreases 20 - k,
    {
        v.push(0u8);
        k += 1;
    }
    proof {
        assert(v@ =~= Seq::<u8>::new(20, |i: int| 0u8));
    }
    v
}

} // verus!
